//! The multiples of the G2 generator `H` by the scalars below 17, point by point: the
//! doublings and additions that double-and-add performs on them all have invertible
//! denominators, although `Fp2` has zero divisors.  For the residues from 17 to 100 the same
//! holds except at 34, 51, 68, 77, 94 and 98; `H` does not have order 17 in the curve over
//! `Fp2`, and those multiples are mapped by `i -> 10` to the multiples of a point of order 34.
use crate::arith::{lemma_inverse_unique, lemma_prime_101};
use crate::field::{TinyFp, PRIME};
use crate::tiny_field::{fp2_of, lemma_fp2_congruent, lemma_fp2_inverse, lemma_fp2_ops, Fp2, G2Point};
use crate::pairing::sproject;
use crate::pairing_values::col_point;
use vstd::arithmetic::div_mod::*;
use vstd::prelude::*;

verus! {

/// The affine point `(x0 + x1 i, y0 + y1 i)` of the curve over `Fp2`.
pub open spec fn g2_pt(x0: int, x1: int, y0: int, y1: int) -> G2Point {
    G2Point::Affine { x: fp2_of(x0, x1), y: fp2_of(y0, y1) }
}

/// Every multiple of the G2 generator by a scalar below 17 is computed without a
/// non-invertible denominator.
pub open spec fn g2_multiples_defined() -> bool {
    forall|t: nat| t < 17 ==> #[trigger] G2Point::sgenerator().mul_defined(t)
}

/// `a` and `b` are congruent when they differ by a multiple `q` of the modulus.
pub(crate) proof fn lemma_cong(a: int, b: int, q: int)
    requires
        a - b == (PRIME as int) * q,
    ensures
        (a - b) % (PRIME as int) == 0,
{
    lemma_mod_multiples_basic(q, PRIME as int);
    assert((PRIME as int) * q == q * (PRIME as int)) by (nonlinear_arith);
}

/// `fp2_of(d0, d1)` has the inverse `fp2_of(d0 k, -d1 k)` when the norm of `d` is
/// `101 q + n` and `n k == 101 qk + 1`.
proof fn lemma_inverse_at(d0: int, d1: int, q: int, n: int, k: int, qk: int)
    requires
        d0 * d0 + d1 * d1 == (PRIME as int) * q + n,
        0 <= n < PRIME,
        0 <= k < PRIME,
        n * k == (PRIME as int) * qk + 1,
    ensures
        fp2_of(d0, d1).sinverse() == Some(fp2_of(d0 * k, -d1 * k)),
{
    broadcast use TinyFp::group_tiny_field;

    let p = PRIME as int;
    assert(q * p == p * q) by (nonlinear_arith);
    assert(qk * p == p * qk) by (nonlinear_arith);
    lemma_fundamental_div_mod_converse(d0 * d0 + d1 * d1, p, q, n);
    lemma_fundamental_div_mod_converse(n * k, p, qk, 1);
    lemma_fp2_inverse(d0, d1);
    lemma_prime_101();
    assert(n != 0) by {
        if n == 0 {
            assert(n * k == 0);
        }
    }
    lemma_inverse_unique(n as nat, k as nat, PRIME as nat);
    TinyFp::lemma_from_int_ops(d0 * d0 + d1 * d1, 0);
    lemma_small_mod(k as nat, PRIME as nat);
    assert(fp2_of(d0, d1).snorm().sinv().val() == k);
}

/// A concrete doubling, computed step by step over reduced residues: `x^2 = s`,
/// `3 x^2 = t`, `2 y = d`, `d^-1 = i` (the norm of `d` is `n` and `k` its inverse),
/// `lambda = t i = l`, `lambda^2 = m`, `x3 = m - 2x = c`, `lambda (x - x3) = w` and
/// `y3 = w - y = b`; each step is a congruence whose quotient is the matching entry of `q`.
pub(crate) proof fn lemma_g2_double_at(
    x: (int, int), y: (int, int), s: (int, int), t: (int, int), d: (int, int),
    n: int, k: int, i: (int, int), l: (int, int), m: (int, int), c: (int, int),
    w: (int, int), b: (int, int),
    q: (int, int, int, int, int, int, int, int, int, int),
    r: (int, int, int, int, int, int, int, int, int, int),
)
    requires
        0 <= y.0 < PRIME,
        0 <= y.1 < PRIME,
        !(y.0 == 0 && y.1 == 0),
        x.0 * x.0 - x.1 * x.1 - s.0 == (PRIME as int) * q.0,
        x.0 * x.1 + x.1 * x.0 - s.1 == (PRIME as int) * q.1,
        3 * s.0 - 0 * s.1 - t.0 == (PRIME as int) * q.2,
        3 * s.1 + 0 * s.0 - t.1 == (PRIME as int) * q.3,
        2 * y.0 - 0 * y.1 - d.0 == (PRIME as int) * q.4,
        2 * y.1 + 0 * y.0 - d.1 == (PRIME as int) * q.5,
        d.0 * d.0 + d.1 * d.1 == (PRIME as int) * q.6 + n,
        0 <= n < PRIME,
        0 <= k < PRIME,
        n * k == (PRIME as int) * q.7 + 1,
        d.0 * k - i.0 == (PRIME as int) * q.8,
        -d.1 * k - i.1 == (PRIME as int) * q.9,
        t.0 * i.0 - t.1 * i.1 - l.0 == (PRIME as int) * r.0,
        t.0 * i.1 + t.1 * i.0 - l.1 == (PRIME as int) * r.1,
        l.0 * l.0 - l.1 * l.1 - m.0 == (PRIME as int) * r.2,
        l.0 * l.1 + l.1 * l.0 - m.1 == (PRIME as int) * r.3,
        m.0 - (2 * x.0 - 0 * x.1) - c.0 == (PRIME as int) * r.4,
        m.1 - (2 * x.1 + 0 * x.0) - c.1 == (PRIME as int) * r.5,
        l.0 * (x.0 - c.0) - l.1 * (x.1 - c.1) - w.0 == (PRIME as int) * r.6,
        l.0 * (x.1 - c.1) + l.1 * (x.0 - c.0) - w.1 == (PRIME as int) * r.7,
        w.0 - y.0 - b.0 == (PRIME as int) * r.8,
        w.1 - y.1 - b.1 == (PRIME as int) * r.9,
    ensures
        g2_pt(x.0, x.1, y.0, y.1).double_defined(),
        g2_pt(x.0, x.1, y.0, y.1).sdouble() == g2_pt(c.0, c.1, b.0, b.1),
{
    broadcast use TinyFp::group_tiny_field;

    let yy = fp2_of(y.0, y.1);
    lemma_small_mod(y.0 as nat, PRIME as nat);
    lemma_small_mod(y.1 as nat, PRIME as nat);
    assert(yy != Fp2::szero()) by {
        if yy == Fp2::szero() {
            assert(yy.c0.val() == 0 && yy.c1.val() == 0);
        }
    }
    assert(Fp2::sfrom(TinyFp::from_int(2)) == fp2_of(2, 0));
    assert(Fp2::sfrom(TinyFp::from_int(3)) == fp2_of(3, 0));
    lemma_fp2_ops(x.0, x.1, x.0, x.1);
    lemma_cong(x.0 * x.0 - x.1 * x.1, s.0, q.0);
    lemma_cong(x.0 * x.1 + x.1 * x.0, s.1, q.1);
    lemma_fp2_congruent(x.0 * x.0 - x.1 * x.1, x.0 * x.1 + x.1 * x.0, s.0, s.1);
    lemma_fp2_ops(3, 0, s.0, s.1);
    lemma_cong(3 * s.0 - 0 * s.1, t.0, q.2);
    lemma_cong(3 * s.1 + 0 * s.0, t.1, q.3);
    lemma_fp2_congruent(3 * s.0 - 0 * s.1, 3 * s.1 + 0 * s.0, t.0, t.1);
    lemma_fp2_ops(2, 0, y.0, y.1);
    lemma_cong(2 * y.0 - 0 * y.1, d.0, q.4);
    lemma_cong(2 * y.1 + 0 * y.0, d.1, q.5);
    lemma_fp2_congruent(2 * y.0 - 0 * y.1, 2 * y.1 + 0 * y.0, d.0, d.1);
    lemma_inverse_at(d.0, d.1, q.6, n, k, q.7);
    lemma_cong(d.0 * k, i.0, q.8);
    lemma_cong(-d.1 * k, i.1, q.9);
    lemma_fp2_congruent(d.0 * k, -d.1 * k, i.0, i.1);
    lemma_fp2_ops(t.0, t.1, i.0, i.1);
    lemma_cong(t.0 * i.0 - t.1 * i.1, l.0, r.0);
    lemma_cong(t.0 * i.1 + t.1 * i.0, l.1, r.1);
    lemma_fp2_congruent(t.0 * i.0 - t.1 * i.1, t.0 * i.1 + t.1 * i.0, l.0, l.1);
    lemma_fp2_ops(l.0, l.1, l.0, l.1);
    lemma_cong(l.0 * l.0 - l.1 * l.1, m.0, r.2);
    lemma_cong(l.0 * l.1 + l.1 * l.0, m.1, r.3);
    lemma_fp2_congruent(l.0 * l.0 - l.1 * l.1, l.0 * l.1 + l.1 * l.0, m.0, m.1);
    lemma_fp2_ops(2, 0, x.0, x.1);
    lemma_fp2_ops(m.0, m.1, 2 * x.0 - 0 * x.1, 2 * x.1 + 0 * x.0);
    lemma_cong(m.0 - (2 * x.0 - 0 * x.1), c.0, r.4);
    lemma_cong(m.1 - (2 * x.1 + 0 * x.0), c.1, r.5);
    lemma_fp2_congruent(m.0 - (2 * x.0 - 0 * x.1), m.1 - (2 * x.1 + 0 * x.0), c.0, c.1);
    lemma_fp2_ops(x.0, x.1, c.0, c.1);
    lemma_fp2_ops(l.0, l.1, x.0 - c.0, x.1 - c.1);
    lemma_cong(l.0 * (x.0 - c.0) - l.1 * (x.1 - c.1), w.0, r.6);
    lemma_cong(l.0 * (x.1 - c.1) + l.1 * (x.0 - c.0), w.1, r.7);
    lemma_fp2_congruent(l.0 * (x.0 - c.0) - l.1 * (x.1 - c.1), l.0 * (x.1 - c.1) + l.1 * (x.0 - c.0), w.0, w.1);
    lemma_fp2_ops(w.0, w.1, y.0, y.1);
    lemma_cong(w.0 - y.0, b.0, r.8);
    lemma_cong(w.1 - y.1, b.1, r.9);
    lemma_fp2_congruent(w.0 - y.0, w.1 - y.1, b.0, b.1);
}

/// A concrete addition of points with distinct `x`, step by step over reduced residues:
/// `y2 - y1 = e`, `x2 - x1 = d`, `d^-1 = i` (the norm of `d` is `n` and `k` its inverse),
/// `lambda = e i = l`, `lambda^2 = m`, `x3 = m - x1 - x2 = c`, `lambda (x1 - x3) = w` and
/// `y3 = w - y1 = b`; each step is a congruence whose quotient is the matching entry of `q`.
pub(crate) proof fn lemma_g2_add_at(
    x1: (int, int), y1: (int, int), x2: (int, int), y2: (int, int), e: (int, int),
    d: (int, int), n: int, k: int, i: (int, int), l: (int, int), m: (int, int),
    c: (int, int), w: (int, int), b: (int, int),
    q: (int, int, int, int, int, int, int, int, int, int),
    r: (int, int, int, int, int, int, int, int),
)
    requires
        0 <= x1.0 < PRIME,
        0 <= x1.1 < PRIME,
        0 <= x2.0 < PRIME,
        0 <= x2.1 < PRIME,
        !(x1.0 == x2.0 && x1.1 == x2.1),
        y2.0 - y1.0 - e.0 == (PRIME as int) * q.0,
        y2.1 - y1.1 - e.1 == (PRIME as int) * q.1,
        x2.0 - x1.0 - d.0 == (PRIME as int) * q.2,
        x2.1 - x1.1 - d.1 == (PRIME as int) * q.3,
        d.0 * d.0 + d.1 * d.1 == (PRIME as int) * q.4 + n,
        0 <= n < PRIME,
        0 <= k < PRIME,
        n * k == (PRIME as int) * q.5 + 1,
        d.0 * k - i.0 == (PRIME as int) * q.6,
        -d.1 * k - i.1 == (PRIME as int) * q.7,
        e.0 * i.0 - e.1 * i.1 - l.0 == (PRIME as int) * q.8,
        e.0 * i.1 + e.1 * i.0 - l.1 == (PRIME as int) * q.9,
        l.0 * l.0 - l.1 * l.1 - m.0 == (PRIME as int) * r.0,
        l.0 * l.1 + l.1 * l.0 - m.1 == (PRIME as int) * r.1,
        m.0 - x1.0 - x2.0 - c.0 == (PRIME as int) * r.2,
        m.1 - x1.1 - x2.1 - c.1 == (PRIME as int) * r.3,
        l.0 * (x1.0 - c.0) - l.1 * (x1.1 - c.1) - w.0 == (PRIME as int) * r.4,
        l.0 * (x1.1 - c.1) + l.1 * (x1.0 - c.0) - w.1 == (PRIME as int) * r.5,
        w.0 - y1.0 - b.0 == (PRIME as int) * r.6,
        w.1 - y1.1 - b.1 == (PRIME as int) * r.7,
    ensures
        g2_pt(x1.0, x1.1, y1.0, y1.1).add_defined(g2_pt(x2.0, x2.1, y2.0, y2.1)),
        g2_pt(x1.0, x1.1, y1.0, y1.1).sadd(g2_pt(x2.0, x2.1, y2.0, y2.1)) == g2_pt(c.0, c.1, b.0, b.1),
{
    broadcast use TinyFp::group_tiny_field;

    lemma_small_mod(x1.0 as nat, PRIME as nat);
    lemma_small_mod(x1.1 as nat, PRIME as nat);
    lemma_small_mod(x2.0 as nat, PRIME as nat);
    lemma_small_mod(x2.1 as nat, PRIME as nat);
    assert(fp2_of(x1.0, x1.1) != fp2_of(x2.0, x2.1)) by {
        if fp2_of(x1.0, x1.1) == fp2_of(x2.0, x2.1) {
            assert(fp2_of(x1.0, x1.1).c0.val() == fp2_of(x2.0, x2.1).c0.val());
            assert(fp2_of(x1.0, x1.1).c1.val() == fp2_of(x2.0, x2.1).c1.val());
        }
    }
    lemma_fp2_ops(y2.0, y2.1, y1.0, y1.1);
    lemma_cong(y2.0 - y1.0, e.0, q.0);
    lemma_cong(y2.1 - y1.1, e.1, q.1);
    lemma_fp2_congruent(y2.0 - y1.0, y2.1 - y1.1, e.0, e.1);
    lemma_fp2_ops(x2.0, x2.1, x1.0, x1.1);
    lemma_cong(x2.0 - x1.0, d.0, q.2);
    lemma_cong(x2.1 - x1.1, d.1, q.3);
    lemma_fp2_congruent(x2.0 - x1.0, x2.1 - x1.1, d.0, d.1);
    lemma_inverse_at(d.0, d.1, q.4, n, k, q.5);
    lemma_cong(d.0 * k, i.0, q.6);
    lemma_cong(-d.1 * k, i.1, q.7);
    lemma_fp2_congruent(d.0 * k, -d.1 * k, i.0, i.1);
    lemma_fp2_ops(e.0, e.1, i.0, i.1);
    lemma_cong(e.0 * i.0 - e.1 * i.1, l.0, q.8);
    lemma_cong(e.0 * i.1 + e.1 * i.0, l.1, q.9);
    lemma_fp2_congruent(e.0 * i.0 - e.1 * i.1, e.0 * i.1 + e.1 * i.0, l.0, l.1);
    lemma_fp2_ops(l.0, l.1, l.0, l.1);
    lemma_cong(l.0 * l.0 - l.1 * l.1, m.0, r.0);
    lemma_cong(l.0 * l.1 + l.1 * l.0, m.1, r.1);
    lemma_fp2_congruent(l.0 * l.0 - l.1 * l.1, l.0 * l.1 + l.1 * l.0, m.0, m.1);
    lemma_fp2_ops(m.0, m.1, x1.0, x1.1);
    lemma_fp2_ops(m.0 - x1.0, m.1 - x1.1, x2.0, x2.1);
    lemma_cong(m.0 - x1.0 - x2.0, c.0, r.2);
    lemma_cong(m.1 - x1.1 - x2.1, c.1, r.3);
    lemma_fp2_congruent(m.0 - x1.0 - x2.0, m.1 - x1.1 - x2.1, c.0, c.1);
    lemma_fp2_ops(x1.0, x1.1, c.0, c.1);
    lemma_fp2_ops(l.0, l.1, x1.0 - c.0, x1.1 - c.1);
    lemma_cong(l.0 * (x1.0 - c.0) - l.1 * (x1.1 - c.1), w.0, r.4);
    lemma_cong(l.0 * (x1.1 - c.1) + l.1 * (x1.0 - c.0), w.1, r.5);
    lemma_fp2_congruent(l.0 * (x1.0 - c.0) - l.1 * (x1.1 - c.1), l.0 * (x1.1 - c.1) + l.1 * (x1.0 - c.0), w.0, w.1);
    lemma_fp2_ops(w.0, w.1, y1.0, y1.1);
    lemma_cong(w.0 - y1.0, b.0, r.6);
    lemma_cong(w.1 - y1.1, b.1, r.7);
    lemma_fp2_congruent(w.0 - y1.0, w.1 - y1.1, b.0, b.1);
}

/// From a point of the doubling cycle with no bits left, the remaining steps only double,
/// and each doubling is defined.
proof fn lemma_cycle_steps(acc: G2Point, temp: G2Point, k: nat)
    requires
        in_cycle(temp),
    ensures
        G2Point::mul_steps_defined(acc, temp, 0, k),
    decreases k,
{
    lemma_doubling_chain();
    if k > 0 {
        lemma_cycle_steps(acc, temp.sdouble(), (k - 1) as nat);
    }
}

/// The doublings along the chain `H, 2H, 4H, 8H, 16H, ...`, which returns to `2H` after
/// eight more steps.
pub(crate) proof fn lemma_doubling_chain()
    ensures
        g2_pt(0, 3, 9, 49).double_defined(),
        g2_pt(0, 3, 9, 49).sdouble() == g2_pt(38, 33, 61, 75),
        g2_pt(38, 33, 61, 75).double_defined(),
        g2_pt(38, 33, 61, 75).sdouble() == g2_pt(5, 72, 16, 44),
        g2_pt(5, 72, 16, 44).double_defined(),
        g2_pt(5, 72, 16, 44).sdouble() == g2_pt(18, 69, 94, 11),
        g2_pt(18, 69, 94, 11).double_defined(),
        g2_pt(18, 69, 94, 11).sdouble() == g2_pt(93, 48, 94, 99),
        g2_pt(93, 48, 94, 99).double_defined(),
        g2_pt(93, 48, 94, 99).sdouble() == g2_pt(18, 35, 17, 99),
        g2_pt(18, 35, 17, 99).double_defined(),
        g2_pt(18, 35, 17, 99).sdouble() == g2_pt(84, 54, 48, 91),
        g2_pt(84, 54, 48, 91).double_defined(),
        g2_pt(84, 54, 48, 91).sdouble() == g2_pt(31, 98, 39, 6),
        g2_pt(31, 98, 39, 6).double_defined(),
        g2_pt(31, 98, 39, 6).sdouble() == g2_pt(19, 15, 76, 86),
        g2_pt(19, 15, 76, 86).double_defined(),
        g2_pt(19, 15, 76, 86).sdouble() == g2_pt(38, 33, 61, 75),
{
    lemma_double_0();
    lemma_double_1();
    lemma_double_2();
    lemma_double_3();
    lemma_double_4();
    lemma_double_5();
    lemma_double_6();
    lemma_double_7();
    lemma_double_8();
}

proof fn lemma_double_0()
    ensures
        g2_pt(0, 3, 9, 49).double_defined(),
        g2_pt(0, 3, 9, 49).sdouble() == g2_pt(38, 33, 61, 75),
{
    lemma_g2_double_at(
        (0, 3),
        (9, 49),
        (92, 0),
        (74, 0),
        (18, 98),
        30,
        64,
        (41, 91),
        (4, 68),
        (38, 39),
        (38, 33),
        (70, 23),
        (61, 75),
        (-1, 0, 2, 0, 0, 0, 98, 19, 11, -63),
        (30, 66, -46, 5, 0, 0, 18, -27, 0, -1),
    );
}

proof fn lemma_double_1()
    ensures
        g2_pt(38, 33, 61, 75).double_defined(),
        g2_pt(38, 33, 61, 75).sdouble() == g2_pt(5, 72, 16, 44),
{
    lemma_g2_double_at(
        (38, 33),
        (61, 75),
        (52, 84),
        (55, 50),
        (21, 49),
        14,
        65,
        (52, 47),
        (5, 34),
        (81, 37),
        (5, 72),
        (77, 18),
        (16, 44),
        (3, 24, 1, 2, 1, 1, 28, 9, 13, -32),
        (5, 51, -12, 3, 0, -1, 14, 9, 0, -1),
    );
}

proof fn lemma_double_2()
    ensures
        g2_pt(5, 72, 16, 44).double_defined(),
        g2_pt(5, 72, 16, 44).sdouble() == g2_pt(18, 69, 94, 11),
{
    lemma_g2_double_at(
        (5, 72),
        (16, 44),
        (93, 13),
        (77, 39),
        (32, 88),
        82,
        85,
        (94, 95),
        (99, 73),
        (28, 11),
        (18, 69),
        (9, 55),
        (94, 11),
        (-52, 7, 2, 0, 0, 0, 86, 69, 26, -75),
        (34, 108, 44, 143, 0, -2, -15, -7, -1, 0),
    );
}

proof fn lemma_double_3()
    ensures
        g2_pt(18, 69, 94, 11).double_defined(),
        g2_pt(18, 69, 94, 11).sdouble() == g2_pt(93, 48, 94, 99),
{
    lemma_g2_double_at(
        (18, 69),
        (94, 11),
        (7, 60),
        (21, 79),
        (87, 22),
        74,
        86,
        (8, 27),
        (55, 88),
        (28, 85),
        (93, 48),
        (87, 9),
        (94, 99),
        (-44, 24, 0, 1, 1, 0, 79, 63, 74, -19),
        (-20, 11, -47, 95, -1, -1, -60, -54, -1, -1),
    );
}

proof fn lemma_double_4()
    ensures
        g2_pt(93, 48, 94, 99).double_defined(),
        g2_pt(93, 48, 94, 99).sdouble() == g2_pt(18, 35, 17, 99),
{
    lemma_g2_double_at(
        (93, 48),
        (94, 99),
        (83, 40),
        (47, 19),
        (87, 97),
        10,
        91,
        (39, 61),
        (68, 73),
        (2, 30),
        (18, 35),
        (10, 97),
        (17, 99),
        (62, 88, 2, 1, 1, 1, 168, 9, 78, -88),
        (6, 35, -7, 98, -2, -1, 41, 62, -1, -1),
    );
}

proof fn lemma_double_5()
    ensures
        g2_pt(18, 35, 17, 99).double_defined(),
        g2_pt(18, 35, 17, 99).sdouble() == g2_pt(84, 54, 48, 91),
{
    lemma_g2_double_at(
        (18, 35),
        (17, 99),
        (8, 48),
        (24, 43),
        (34, 97),
        61,
        53,
        (85, 10),
        (95, 57),
        (19, 23),
        (84, 54),
        (65, 89),
        (48, 91),
        (-9, 12, 0, 1, 0, 1, 104, 32, 17, -51),
        (15, 38, 57, 107, -1, -1, -52, -56, 0, -1),
    );
}

proof fn lemma_double_6()
    ensures
        g2_pt(84, 54, 48, 91).double_defined(),
        g2_pt(84, 54, 48, 91).sdouble() == g2_pt(31, 98, 39, 6),
{
    lemma_g2_double_at(
        (84, 54),
        (48, 91),
        (100, 83),
        (98, 47),
        (96, 81),
        21,
        77,
        (19, 25),
        (81, 10),
        (98, 4),
        (31, 98),
        (87, 97),
        (39, 6),
        (40, 89, 2, 2, 0, 1, 156, 16, 73, -62),
        (6, 33, 63, 16, -1, -2, 46, -31, 0, 0),
    );
}

proof fn lemma_double_7()
    ensures
        g2_pt(31, 98, 39, 6).double_defined(),
        g2_pt(31, 98, 39, 6).sdouble() == g2_pt(19, 15, 76, 86),
{
    lemma_g2_double_at(
        (31, 98),
        (39, 6),
        (43, 16),
        (28, 48),
        (78, 12),
        67,
        98,
        (69, 36),
        (2, 78),
        (81, 9),
        (19, 15),
        (14, 92),
        (76, 86),
        (-86, 60, 1, 0, 0, 0, 61, 65, 75, -12),
        (2, 42, -61, 3, 0, -2, -64, 10, -1, 0),
    );
}

proof fn lemma_double_8()
    ensures
        g2_pt(19, 15, 76, 86).double_defined(),
        g2_pt(19, 15, 76, 86).sdouble() == g2_pt(38, 33, 61, 75),
{
    lemma_g2_double_at(
        (19, 15),
        (76, 86),
        (35, 65),
        (4, 94),
        (51, 71),
        67,
        98,
        (49, 11),
        (71, 4),
        (76, 63),
        (38, 33),
        (36, 60),
        (61, 75),
        (1, 5, 1, 1, 1, 1, 75, 65, 49, -69),
        (-9, 46, 49, 5, 0, 0, -13, -14, -1, -1),
    );
}

/// The points of the doubling cycle through `2H`.
spec fn in_cycle(p: G2Point) -> bool {
    p == g2_pt(38, 33, 61, 75)
    || p == g2_pt(5, 72, 16, 44)
    || p == g2_pt(18, 69, 94, 11)
    || p == g2_pt(93, 48, 94, 99)
    || p == g2_pt(18, 35, 17, 99)
    || p == g2_pt(84, 54, 48, 91)
    || p == g2_pt(31, 98, 39, 6)
    || p == g2_pt(19, 15, 76, 86)
}

/// The additions that the double-and-add for a scalar below 17 performs.
pub(crate) proof fn lemma_table_additions()
    ensures
        g2_pt(0, 3, 9, 49).add_defined(g2_pt(38, 33, 61, 75)),
        g2_pt(0, 3, 9, 49).sadd(g2_pt(38, 33, 61, 75)) == g2_pt(19, 91, 88, 44),
        g2_pt(0, 3, 9, 49).add_defined(g2_pt(5, 72, 16, 44)),
        g2_pt(0, 3, 9, 49).sadd(g2_pt(5, 72, 16, 44)) == g2_pt(69, 33, 71, 86),
        g2_pt(38, 33, 61, 75).add_defined(g2_pt(5, 72, 16, 44)),
        g2_pt(38, 33, 61, 75).sadd(g2_pt(5, 72, 16, 44)) == g2_pt(57, 46, 17, 52),
        g2_pt(19, 91, 88, 44).add_defined(g2_pt(5, 72, 16, 44)),
        g2_pt(19, 91, 88, 44).sadd(g2_pt(5, 72, 16, 44)) == g2_pt(81, 47, 93, 16),
        g2_pt(0, 3, 9, 49).add_defined(g2_pt(18, 69, 94, 11)),
        g2_pt(0, 3, 9, 49).sadd(g2_pt(18, 69, 94, 11)) == g2_pt(83, 80, 84, 22),
        g2_pt(38, 33, 61, 75).add_defined(g2_pt(18, 69, 94, 11)),
        g2_pt(38, 33, 61, 75).sadd(g2_pt(18, 69, 94, 11)) == g2_pt(65, 87, 47, 11),
        g2_pt(19, 91, 88, 44).add_defined(g2_pt(18, 69, 94, 11)),
        g2_pt(19, 91, 88, 44).sadd(g2_pt(18, 69, 94, 11)) == g2_pt(61, 30, 84, 76),
        g2_pt(5, 72, 16, 44).add_defined(g2_pt(18, 69, 94, 11)),
        g2_pt(5, 72, 16, 44).sadd(g2_pt(18, 69, 94, 11)) == g2_pt(29, 87, 70, 40),
        g2_pt(69, 33, 71, 86).add_defined(g2_pt(18, 69, 94, 11)),
        g2_pt(69, 33, 71, 86).sadd(g2_pt(18, 69, 94, 11)) == g2_pt(4, 46, 3, 36),
        g2_pt(57, 46, 17, 52).add_defined(g2_pt(18, 69, 94, 11)),
        g2_pt(57, 46, 17, 52).sadd(g2_pt(18, 69, 94, 11)) == g2_pt(42, 100, 84, 16),
        g2_pt(81, 47, 93, 16).add_defined(g2_pt(18, 69, 94, 11)),
        g2_pt(81, 47, 93, 16).sadd(g2_pt(18, 69, 94, 11)) == g2_pt(71, 14, 32, 68),
{
    lemma_addition_0();
    lemma_addition_1();
    lemma_addition_2();
    lemma_addition_3();
    lemma_addition_4();
    lemma_addition_5();
    lemma_addition_6();
    lemma_addition_7();
    lemma_addition_8();
    lemma_addition_9();
    lemma_addition_10();
}

proof fn lemma_addition_0()
    ensures
        g2_pt(0, 3, 9, 49).add_defined(g2_pt(38, 33, 61, 75)),
        g2_pt(0, 3, 9, 49).sadd(g2_pt(38, 33, 61, 75)) == g2_pt(19, 91, 88, 44),
{
    lemma_g2_add_at(
        (0, 3),
        (9, 49),
        (38, 33),
        (61, 75),
        (52, 26),
        (38, 30),
        21,
        77,
        (98, 13),
        (11, 93),
        (57, 26),
        (19, 91),
        (97, 93),
        (88, 44),
        (0, 0, 0, 0, 23, 16, 28, -23, 47, 31),
        (-85, 20, 0, -1, 78, -28, 0, 0),
    );
}

proof fn lemma_addition_1()
    ensures
        g2_pt(0, 3, 9, 49).add_defined(g2_pt(5, 72, 16, 44)),
        g2_pt(0, 3, 9, 49).sadd(g2_pt(5, 72, 16, 44)) == g2_pt(69, 33, 71, 86),
{
    lemma_g2_add_at(
        (0, 3),
        (9, 49),
        (5, 72),
        (16, 44),
        (7, 96),
        (5, 69),
        39,
        57,
        (83, 6),
        (5, 31),
        (74, 7),
        (69, 33),
        (80, 34),
        (71, 86),
        (0, -1, 0, 0, 47, 22, 2, -39, 0, 79),
        (-10, 3, 0, -1, 5, -23, 0, -1),
    );
}

proof fn lemma_addition_2()
    ensures
        g2_pt(38, 33, 61, 75).add_defined(g2_pt(5, 72, 16, 44)),
        g2_pt(38, 33, 61, 75).sadd(g2_pt(5, 72, 16, 44)) == g2_pt(57, 46, 17, 52),
{
    lemma_g2_add_at(
        (38, 33),
        (61, 75),
        (5, 72),
        (16, 44),
        (56, 70),
        (68, 39),
        85,
        82,
        (21, 34),
        (8, 41),
        (100, 50),
        (57, 46),
        (78, 26),
        (17, 52),
        (-1, -1, -1, 0, 60, 69, 55, -32, -12, 33),
        (-17, 6, 0, -1, 3, -9, 0, -1),
    );
}

proof fn lemma_addition_3()
    ensures
        g2_pt(19, 91, 88, 44).add_defined(g2_pt(5, 72, 16, 44)),
        g2_pt(19, 91, 88, 44).sadd(g2_pt(5, 72, 16, 44)) == g2_pt(81, 47, 93, 16),
{
    lemma_g2_add_at(
        (19, 91),
        (88, 44),
        (5, 72),
        (16, 44),
        (29, 0),
        (87, 82),
        52,
        68,
        (58, 80),
        (66, 98),
        (4, 8),
        (81, 47),
        (80, 60),
        (93, 16),
        (-1, 0, -1, -1, 141, 35, 58, -56, 16, 22),
        (-52, 128, -1, -2, -84, -32, -1, 0),
    );
}

proof fn lemma_addition_4()
    ensures
        g2_pt(0, 3, 9, 49).add_defined(g2_pt(18, 69, 94, 11)),
        g2_pt(0, 3, 9, 49).sadd(g2_pt(18, 69, 94, 11)) == g2_pt(83, 80, 84, 22),
{
    lemma_g2_add_at(
        (0, 3),
        (9, 49),
        (18, 69),
        (94, 11),
        (85, 63),
        (18, 66),
        34,
        3,
        (54, 4),
        (96, 5),
        (0, 51),
        (83, 80),
        (93, 71),
        (84, 22),
        (0, -1, 0, 0, 46, 1, 0, -2, 42, 37),
        (91, 9, -1, -1, -76, -78, 0, 0),
    );
}

proof fn lemma_addition_5()
    ensures
        g2_pt(38, 33, 61, 75).add_defined(g2_pt(18, 69, 94, 11)),
        g2_pt(38, 33, 61, 75).sadd(g2_pt(18, 69, 94, 11)) == g2_pt(65, 87, 47, 11),
{
    lemma_g2_add_at(
        (38, 33),
        (61, 75),
        (18, 69),
        (94, 11),
        (33, 37),
        (81, 36),
        80,
        24,
        (25, 45),
        (69, 87),
        (20, 88),
        (65, 87),
        (7, 86),
        (47, 11),
        (0, -1, -1, 0, 77, 19, 19, -9, -9, 23),
        (-28, 118, -1, -1, 28, -61, -1, 0),
    );
}

proof fn lemma_addition_6()
    ensures
        g2_pt(19, 91, 88, 44).add_defined(g2_pt(18, 69, 94, 11)),
        g2_pt(19, 91, 88, 44).sadd(g2_pt(18, 69, 94, 11)) == g2_pt(61, 30, 84, 76),
{
    lemma_g2_add_at(
        (19, 91),
        (88, 44),
        (18, 69),
        (94, 11),
        (6, 68),
        (100, 79),
        81,
        5,
        (96, 9),
        (65, 17),
        (98, 89),
        (61, 30),
        (71, 19),
        (84, 76),
        (0, -1, -1, -1, 160, 4, 4, -4, -1, 65),
        (38, 21, 0, -1, -38, 32, -1, -1),
    );
}

proof fn lemma_addition_7()
    ensures
        g2_pt(5, 72, 16, 44).add_defined(g2_pt(18, 69, 94, 11)),
        g2_pt(5, 72, 16, 44).sadd(g2_pt(18, 69, 94, 11)) == g2_pt(29, 87, 70, 40),
{
    lemma_g2_add_at(
        (5, 72),
        (16, 44),
        (18, 69),
        (94, 11),
        (78, 68),
        (13, 98),
        77,
        21,
        (71, 63),
        (42, 46),
        (52, 26),
        (29, 87),
        (86, 84),
        (70, 40),
        (0, -1, 0, -1, 96, 16, 2, -21, 12, 96),
        (-4, 38, 0, -2, -4, -18, 0, 0),
    );
}

proof fn lemma_addition_8()
    ensures
        g2_pt(69, 33, 71, 86).add_defined(g2_pt(18, 69, 94, 11)),
        g2_pt(69, 33, 71, 86).sadd(g2_pt(18, 69, 94, 11)) == g2_pt(4, 46, 3, 36),
{
    lemma_g2_add_at(
        (69, 33),
        (71, 86),
        (18, 69),
        (94, 11),
        (23, 26),
        (50, 36),
        59,
        12,
        (95, 73),
        (85, 8),
        (91, 47),
        (4, 46),
        (74, 21),
        (3, 36),
        (0, -1, -1, 0, 37, 7, 5, -5, 2, 41),
        (70, 13, 0, -1, 55, -6, 0, -1),
    );
}

proof fn lemma_addition_9()
    ensures
        g2_pt(57, 46, 17, 52).add_defined(g2_pt(18, 69, 94, 11)),
        g2_pt(57, 46, 17, 52).sadd(g2_pt(18, 69, 94, 11)) == g2_pt(42, 100, 84, 16),
{
    lemma_g2_add_at(
        (57, 46),
        (17, 52),
        (18, 69),
        (94, 11),
        (77, 60),
        (62, 23),
        30,
        64,
        (29, 43),
        (57, 1),
        (16, 13),
        (42, 100),
        (0, 68),
        (84, 16),
        (0, -1, -1, 0, 43, 19, 39, -15, -4, 50),
        (32, 1, -1, -2, 9, -31, -1, 0),
    );
}

proof fn lemma_addition_10()
    ensures
        g2_pt(81, 47, 93, 16).add_defined(g2_pt(18, 69, 94, 11)),
        g2_pt(81, 47, 93, 16).sadd(g2_pt(18, 69, 94, 11)) == g2_pt(71, 14, 32, 68),
{
    lemma_g2_add_at(
        (81, 47),
        (93, 16),
        (18, 69),
        (94, 11),
        (1, 96),
        (38, 22),
        9,
        45,
        (94, 20),
        (93, 55),
        (69, 29),
        (71, 14),
        (24, 84),
        (32, 68),
        (0, -1, -1, 0, 19, 4, 16, -10, -19, 89),
        (55, 101, -1, -1, -9, 35, -1, 0),
    );
}

/// Double-and-add for the scalar 0 never meets a non-invertible denominator.
proof fn lemma_multiple_0_defined()
    ensures
        G2Point::sgenerator().mul_defined(0),
{
    lemma_doubling_chain();
    lemma_table_additions();
    lemma_cycle_steps(G2Point::Infinity, g2_pt(18, 35, 17, 99), 59);
    assert(G2Point::mul_steps_defined(G2Point::Infinity, g2_pt(93, 48, 94, 99), 0, 60));
    assert(G2Point::mul_steps_defined(G2Point::Infinity, g2_pt(18, 69, 94, 11), 0, 61));
    assert(G2Point::mul_steps_defined(G2Point::Infinity, g2_pt(5, 72, 16, 44), 0, 62));
    assert(G2Point::mul_steps_defined(G2Point::Infinity, g2_pt(38, 33, 61, 75), 0, 63));
    assert(G2Point::mul_steps_defined(G2Point::Infinity, g2_pt(0, 3, 9, 49), 0, 64));
}

/// Double-and-add for the scalar 1 never meets a non-invertible denominator.
proof fn lemma_multiple_1_defined()
    ensures
        G2Point::sgenerator().mul_defined(1),
{
    lemma_doubling_chain();
    lemma_table_additions();
    lemma_cycle_steps(g2_pt(0, 3, 9, 49), g2_pt(18, 35, 17, 99), 59);
    assert(G2Point::mul_steps_defined(g2_pt(0, 3, 9, 49), g2_pt(93, 48, 94, 99), 0, 60));
    assert(G2Point::mul_steps_defined(g2_pt(0, 3, 9, 49), g2_pt(18, 69, 94, 11), 0, 61));
    assert(G2Point::mul_steps_defined(g2_pt(0, 3, 9, 49), g2_pt(5, 72, 16, 44), 0, 62));
    assert(G2Point::mul_steps_defined(g2_pt(0, 3, 9, 49), g2_pt(38, 33, 61, 75), 0, 63));
    assert(G2Point::mul_steps_defined(G2Point::Infinity, g2_pt(0, 3, 9, 49), 1, 64));
}

/// Double-and-add for the scalar 2 never meets a non-invertible denominator.
proof fn lemma_multiple_2_defined()
    ensures
        G2Point::sgenerator().mul_defined(2),
{
    lemma_doubling_chain();
    lemma_table_additions();
    lemma_cycle_steps(g2_pt(38, 33, 61, 75), g2_pt(18, 35, 17, 99), 59);
    assert(G2Point::mul_steps_defined(g2_pt(38, 33, 61, 75), g2_pt(93, 48, 94, 99), 0, 60));
    assert(G2Point::mul_steps_defined(g2_pt(38, 33, 61, 75), g2_pt(18, 69, 94, 11), 0, 61));
    assert(G2Point::mul_steps_defined(g2_pt(38, 33, 61, 75), g2_pt(5, 72, 16, 44), 0, 62));
    assert(G2Point::mul_steps_defined(G2Point::Infinity, g2_pt(38, 33, 61, 75), 1, 63));
    assert(G2Point::mul_steps_defined(G2Point::Infinity, g2_pt(0, 3, 9, 49), 2, 64));
}

/// Double-and-add for the scalar 3 never meets a non-invertible denominator.
proof fn lemma_multiple_3_defined()
    ensures
        G2Point::sgenerator().mul_defined(3),
{
    lemma_doubling_chain();
    lemma_table_additions();
    lemma_cycle_steps(g2_pt(19, 91, 88, 44), g2_pt(18, 35, 17, 99), 59);
    assert(G2Point::mul_steps_defined(g2_pt(19, 91, 88, 44), g2_pt(93, 48, 94, 99), 0, 60));
    assert(G2Point::mul_steps_defined(g2_pt(19, 91, 88, 44), g2_pt(18, 69, 94, 11), 0, 61));
    assert(G2Point::mul_steps_defined(g2_pt(19, 91, 88, 44), g2_pt(5, 72, 16, 44), 0, 62));
    assert(G2Point::mul_steps_defined(g2_pt(0, 3, 9, 49), g2_pt(38, 33, 61, 75), 1, 63));
    assert(G2Point::mul_steps_defined(G2Point::Infinity, g2_pt(0, 3, 9, 49), 3, 64));
}

/// Double-and-add for the scalar 4 never meets a non-invertible denominator.
proof fn lemma_multiple_4_defined()
    ensures
        G2Point::sgenerator().mul_defined(4),
{
    lemma_doubling_chain();
    lemma_table_additions();
    lemma_cycle_steps(g2_pt(5, 72, 16, 44), g2_pt(18, 35, 17, 99), 59);
    assert(G2Point::mul_steps_defined(g2_pt(5, 72, 16, 44), g2_pt(93, 48, 94, 99), 0, 60));
    assert(G2Point::mul_steps_defined(g2_pt(5, 72, 16, 44), g2_pt(18, 69, 94, 11), 0, 61));
    assert(G2Point::mul_steps_defined(G2Point::Infinity, g2_pt(5, 72, 16, 44), 1, 62));
    assert(G2Point::mul_steps_defined(G2Point::Infinity, g2_pt(38, 33, 61, 75), 2, 63));
    assert(G2Point::mul_steps_defined(G2Point::Infinity, g2_pt(0, 3, 9, 49), 4, 64));
}

/// Double-and-add for the scalar 5 never meets a non-invertible denominator.
proof fn lemma_multiple_5_defined()
    ensures
        G2Point::sgenerator().mul_defined(5),
{
    lemma_doubling_chain();
    lemma_table_additions();
    lemma_cycle_steps(g2_pt(69, 33, 71, 86), g2_pt(18, 35, 17, 99), 59);
    assert(G2Point::mul_steps_defined(g2_pt(69, 33, 71, 86), g2_pt(93, 48, 94, 99), 0, 60));
    assert(G2Point::mul_steps_defined(g2_pt(69, 33, 71, 86), g2_pt(18, 69, 94, 11), 0, 61));
    assert(G2Point::mul_steps_defined(g2_pt(0, 3, 9, 49), g2_pt(5, 72, 16, 44), 1, 62));
    assert(G2Point::mul_steps_defined(g2_pt(0, 3, 9, 49), g2_pt(38, 33, 61, 75), 2, 63));
    assert(G2Point::mul_steps_defined(G2Point::Infinity, g2_pt(0, 3, 9, 49), 5, 64));
}

/// Double-and-add for the scalar 6 never meets a non-invertible denominator.
proof fn lemma_multiple_6_defined()
    ensures
        G2Point::sgenerator().mul_defined(6),
{
    lemma_doubling_chain();
    lemma_table_additions();
    lemma_cycle_steps(g2_pt(57, 46, 17, 52), g2_pt(18, 35, 17, 99), 59);
    assert(G2Point::mul_steps_defined(g2_pt(57, 46, 17, 52), g2_pt(93, 48, 94, 99), 0, 60));
    assert(G2Point::mul_steps_defined(g2_pt(57, 46, 17, 52), g2_pt(18, 69, 94, 11), 0, 61));
    assert(G2Point::mul_steps_defined(g2_pt(38, 33, 61, 75), g2_pt(5, 72, 16, 44), 1, 62));
    assert(G2Point::mul_steps_defined(G2Point::Infinity, g2_pt(38, 33, 61, 75), 3, 63));
    assert(G2Point::mul_steps_defined(G2Point::Infinity, g2_pt(0, 3, 9, 49), 6, 64));
}

/// Double-and-add for the scalar 7 never meets a non-invertible denominator.
proof fn lemma_multiple_7_defined()
    ensures
        G2Point::sgenerator().mul_defined(7),
{
    lemma_doubling_chain();
    lemma_table_additions();
    lemma_cycle_steps(g2_pt(81, 47, 93, 16), g2_pt(18, 35, 17, 99), 59);
    assert(G2Point::mul_steps_defined(g2_pt(81, 47, 93, 16), g2_pt(93, 48, 94, 99), 0, 60));
    assert(G2Point::mul_steps_defined(g2_pt(81, 47, 93, 16), g2_pt(18, 69, 94, 11), 0, 61));
    assert(G2Point::mul_steps_defined(g2_pt(19, 91, 88, 44), g2_pt(5, 72, 16, 44), 1, 62));
    assert(G2Point::mul_steps_defined(g2_pt(0, 3, 9, 49), g2_pt(38, 33, 61, 75), 3, 63));
    assert(G2Point::mul_steps_defined(G2Point::Infinity, g2_pt(0, 3, 9, 49), 7, 64));
}

/// Double-and-add for the scalar 8 never meets a non-invertible denominator.
proof fn lemma_multiple_8_defined()
    ensures
        G2Point::sgenerator().mul_defined(8),
{
    lemma_doubling_chain();
    lemma_table_additions();
    lemma_cycle_steps(g2_pt(18, 69, 94, 11), g2_pt(18, 35, 17, 99), 59);
    assert(G2Point::mul_steps_defined(g2_pt(18, 69, 94, 11), g2_pt(93, 48, 94, 99), 0, 60));
    assert(G2Point::mul_steps_defined(G2Point::Infinity, g2_pt(18, 69, 94, 11), 1, 61));
    assert(G2Point::mul_steps_defined(G2Point::Infinity, g2_pt(5, 72, 16, 44), 2, 62));
    assert(G2Point::mul_steps_defined(G2Point::Infinity, g2_pt(38, 33, 61, 75), 4, 63));
    assert(G2Point::mul_steps_defined(G2Point::Infinity, g2_pt(0, 3, 9, 49), 8, 64));
}

/// Double-and-add for the scalar 9 never meets a non-invertible denominator.
proof fn lemma_multiple_9_defined()
    ensures
        G2Point::sgenerator().mul_defined(9),
{
    lemma_doubling_chain();
    lemma_table_additions();
    lemma_cycle_steps(g2_pt(83, 80, 84, 22), g2_pt(18, 35, 17, 99), 59);
    assert(G2Point::mul_steps_defined(g2_pt(83, 80, 84, 22), g2_pt(93, 48, 94, 99), 0, 60));
    assert(G2Point::mul_steps_defined(g2_pt(0, 3, 9, 49), g2_pt(18, 69, 94, 11), 1, 61));
    assert(G2Point::mul_steps_defined(g2_pt(0, 3, 9, 49), g2_pt(5, 72, 16, 44), 2, 62));
    assert(G2Point::mul_steps_defined(g2_pt(0, 3, 9, 49), g2_pt(38, 33, 61, 75), 4, 63));
    assert(G2Point::mul_steps_defined(G2Point::Infinity, g2_pt(0, 3, 9, 49), 9, 64));
}

/// Double-and-add for the scalar 10 never meets a non-invertible denominator.
proof fn lemma_multiple_10_defined()
    ensures
        G2Point::sgenerator().mul_defined(10),
{
    lemma_doubling_chain();
    lemma_table_additions();
    lemma_cycle_steps(g2_pt(65, 87, 47, 11), g2_pt(18, 35, 17, 99), 59);
    assert(G2Point::mul_steps_defined(g2_pt(65, 87, 47, 11), g2_pt(93, 48, 94, 99), 0, 60));
    assert(G2Point::mul_steps_defined(g2_pt(38, 33, 61, 75), g2_pt(18, 69, 94, 11), 1, 61));
    assert(G2Point::mul_steps_defined(g2_pt(38, 33, 61, 75), g2_pt(5, 72, 16, 44), 2, 62));
    assert(G2Point::mul_steps_defined(G2Point::Infinity, g2_pt(38, 33, 61, 75), 5, 63));
    assert(G2Point::mul_steps_defined(G2Point::Infinity, g2_pt(0, 3, 9, 49), 10, 64));
}

/// Double-and-add for the scalar 11 never meets a non-invertible denominator.
proof fn lemma_multiple_11_defined()
    ensures
        G2Point::sgenerator().mul_defined(11),
{
    lemma_doubling_chain();
    lemma_table_additions();
    lemma_cycle_steps(g2_pt(61, 30, 84, 76), g2_pt(18, 35, 17, 99), 59);
    assert(G2Point::mul_steps_defined(g2_pt(61, 30, 84, 76), g2_pt(93, 48, 94, 99), 0, 60));
    assert(G2Point::mul_steps_defined(g2_pt(19, 91, 88, 44), g2_pt(18, 69, 94, 11), 1, 61));
    assert(G2Point::mul_steps_defined(g2_pt(19, 91, 88, 44), g2_pt(5, 72, 16, 44), 2, 62));
    assert(G2Point::mul_steps_defined(g2_pt(0, 3, 9, 49), g2_pt(38, 33, 61, 75), 5, 63));
    assert(G2Point::mul_steps_defined(G2Point::Infinity, g2_pt(0, 3, 9, 49), 11, 64));
}

/// Double-and-add for the scalar 12 never meets a non-invertible denominator.
proof fn lemma_multiple_12_defined()
    ensures
        G2Point::sgenerator().mul_defined(12),
{
    lemma_doubling_chain();
    lemma_table_additions();
    lemma_cycle_steps(g2_pt(29, 87, 70, 40), g2_pt(18, 35, 17, 99), 59);
    assert(G2Point::mul_steps_defined(g2_pt(29, 87, 70, 40), g2_pt(93, 48, 94, 99), 0, 60));
    assert(G2Point::mul_steps_defined(g2_pt(5, 72, 16, 44), g2_pt(18, 69, 94, 11), 1, 61));
    assert(G2Point::mul_steps_defined(G2Point::Infinity, g2_pt(5, 72, 16, 44), 3, 62));
    assert(G2Point::mul_steps_defined(G2Point::Infinity, g2_pt(38, 33, 61, 75), 6, 63));
    assert(G2Point::mul_steps_defined(G2Point::Infinity, g2_pt(0, 3, 9, 49), 12, 64));
}

/// Double-and-add for the scalar 13 never meets a non-invertible denominator.
proof fn lemma_multiple_13_defined()
    ensures
        G2Point::sgenerator().mul_defined(13),
{
    lemma_doubling_chain();
    lemma_table_additions();
    lemma_cycle_steps(g2_pt(4, 46, 3, 36), g2_pt(18, 35, 17, 99), 59);
    assert(G2Point::mul_steps_defined(g2_pt(4, 46, 3, 36), g2_pt(93, 48, 94, 99), 0, 60));
    assert(G2Point::mul_steps_defined(g2_pt(69, 33, 71, 86), g2_pt(18, 69, 94, 11), 1, 61));
    assert(G2Point::mul_steps_defined(g2_pt(0, 3, 9, 49), g2_pt(5, 72, 16, 44), 3, 62));
    assert(G2Point::mul_steps_defined(g2_pt(0, 3, 9, 49), g2_pt(38, 33, 61, 75), 6, 63));
    assert(G2Point::mul_steps_defined(G2Point::Infinity, g2_pt(0, 3, 9, 49), 13, 64));
}

/// Double-and-add for the scalar 14 never meets a non-invertible denominator.
proof fn lemma_multiple_14_defined()
    ensures
        G2Point::sgenerator().mul_defined(14),
{
    lemma_doubling_chain();
    lemma_table_additions();
    lemma_cycle_steps(g2_pt(42, 100, 84, 16), g2_pt(18, 35, 17, 99), 59);
    assert(G2Point::mul_steps_defined(g2_pt(42, 100, 84, 16), g2_pt(93, 48, 94, 99), 0, 60));
    assert(G2Point::mul_steps_defined(g2_pt(57, 46, 17, 52), g2_pt(18, 69, 94, 11), 1, 61));
    assert(G2Point::mul_steps_defined(g2_pt(38, 33, 61, 75), g2_pt(5, 72, 16, 44), 3, 62));
    assert(G2Point::mul_steps_defined(G2Point::Infinity, g2_pt(38, 33, 61, 75), 7, 63));
    assert(G2Point::mul_steps_defined(G2Point::Infinity, g2_pt(0, 3, 9, 49), 14, 64));
}

/// Double-and-add for the scalar 15 never meets a non-invertible denominator.
proof fn lemma_multiple_15_defined()
    ensures
        G2Point::sgenerator().mul_defined(15),
{
    lemma_doubling_chain();
    lemma_table_additions();
    lemma_cycle_steps(g2_pt(71, 14, 32, 68), g2_pt(18, 35, 17, 99), 59);
    assert(G2Point::mul_steps_defined(g2_pt(71, 14, 32, 68), g2_pt(93, 48, 94, 99), 0, 60));
    assert(G2Point::mul_steps_defined(g2_pt(81, 47, 93, 16), g2_pt(18, 69, 94, 11), 1, 61));
    assert(G2Point::mul_steps_defined(g2_pt(19, 91, 88, 44), g2_pt(5, 72, 16, 44), 3, 62));
    assert(G2Point::mul_steps_defined(g2_pt(0, 3, 9, 49), g2_pt(38, 33, 61, 75), 7, 63));
    assert(G2Point::mul_steps_defined(G2Point::Infinity, g2_pt(0, 3, 9, 49), 15, 64));
}

/// Double-and-add for the scalar 16 never meets a non-invertible denominator.
proof fn lemma_multiple_16_defined()
    ensures
        G2Point::sgenerator().mul_defined(16),
{
    lemma_doubling_chain();
    lemma_table_additions();
    lemma_cycle_steps(g2_pt(93, 48, 94, 99), g2_pt(18, 35, 17, 99), 59);
    assert(G2Point::mul_steps_defined(G2Point::Infinity, g2_pt(93, 48, 94, 99), 1, 60));
    assert(G2Point::mul_steps_defined(G2Point::Infinity, g2_pt(18, 69, 94, 11), 2, 61));
    assert(G2Point::mul_steps_defined(G2Point::Infinity, g2_pt(5, 72, 16, 44), 4, 62));
    assert(G2Point::mul_steps_defined(G2Point::Infinity, g2_pt(38, 33, 61, 75), 8, 63));
    assert(G2Point::mul_steps_defined(G2Point::Infinity, g2_pt(0, 3, 9, 49), 16, 64));
}

/// Every multiple of the G2 generator by a scalar below 17 is computed without a
/// non-invertible denominator.
pub proof fn lemma_g2_multiples_defined()
    ensures
        g2_multiples_defined(),
{
    assert forall|t: nat| t < 17 implies #[trigger] G2Point::sgenerator().mul_defined(t) by {
        if t == 0 {
            lemma_multiple_0_defined();
        } else if t == 1 {
            lemma_multiple_1_defined();
        } else if t == 2 {
            lemma_multiple_2_defined();
        } else if t == 3 {
            lemma_multiple_3_defined();
        } else if t == 4 {
            lemma_multiple_4_defined();
        } else if t == 5 {
            lemma_multiple_5_defined();
        } else if t == 6 {
            lemma_multiple_6_defined();
        } else if t == 7 {
            lemma_multiple_7_defined();
        } else if t == 8 {
            lemma_multiple_8_defined();
        } else if t == 9 {
            lemma_multiple_9_defined();
        } else if t == 10 {
            lemma_multiple_10_defined();
        } else if t == 11 {
            lemma_multiple_11_defined();
        } else if t == 12 {
            lemma_multiple_12_defined();
        } else if t == 13 {
            lemma_multiple_13_defined();
        } else if t == 14 {
            lemma_multiple_14_defined();
        } else if t == 15 {
            lemma_multiple_15_defined();
        } else if t == 16 {
            lemma_multiple_16_defined();
        }
    }
}
/// `0 H` by double-and-add.
pub(crate) proof fn lemma_multiple_0_value()
    ensures
        G2Point::sgenerator().smul(0) == G2Point::Infinity,
{
    lemma_doubling_chain();
    lemma_table_additions();
    G2Point::lemma_smul_steps_zero(G2Point::Infinity, g2_pt(18, 35, 17, 99), 59);
    assert(G2Point::smul_steps(G2Point::Infinity, g2_pt(0, 3, 9, 49), 0, 64) == G2Point::smul_steps(G2Point::Infinity, g2_pt(38, 33, 61, 75), 0, 63));
    assert(G2Point::smul_steps(G2Point::Infinity, g2_pt(38, 33, 61, 75), 0, 63) == G2Point::smul_steps(G2Point::Infinity, g2_pt(5, 72, 16, 44), 0, 62));
    assert(G2Point::smul_steps(G2Point::Infinity, g2_pt(5, 72, 16, 44), 0, 62) == G2Point::smul_steps(G2Point::Infinity, g2_pt(18, 69, 94, 11), 0, 61));
    assert(G2Point::smul_steps(G2Point::Infinity, g2_pt(18, 69, 94, 11), 0, 61) == G2Point::smul_steps(G2Point::Infinity, g2_pt(93, 48, 94, 99), 0, 60));
    assert(G2Point::smul_steps(G2Point::Infinity, g2_pt(93, 48, 94, 99), 0, 60) == G2Point::smul_steps(G2Point::Infinity, g2_pt(18, 35, 17, 99), 0, 59));
}

/// `1 H` by double-and-add.
pub(crate) proof fn lemma_multiple_1_value()
    ensures
        G2Point::sgenerator().smul(1) == g2_pt(0, 3, 9, 49),
{
    lemma_doubling_chain();
    lemma_table_additions();
    G2Point::lemma_smul_steps_zero(g2_pt(0, 3, 9, 49), g2_pt(18, 35, 17, 99), 59);
    assert(G2Point::smul_steps(G2Point::Infinity, g2_pt(0, 3, 9, 49), 1, 64) == G2Point::smul_steps(g2_pt(0, 3, 9, 49), g2_pt(38, 33, 61, 75), 0, 63));
    assert(G2Point::smul_steps(g2_pt(0, 3, 9, 49), g2_pt(38, 33, 61, 75), 0, 63) == G2Point::smul_steps(g2_pt(0, 3, 9, 49), g2_pt(5, 72, 16, 44), 0, 62));
    assert(G2Point::smul_steps(g2_pt(0, 3, 9, 49), g2_pt(5, 72, 16, 44), 0, 62) == G2Point::smul_steps(g2_pt(0, 3, 9, 49), g2_pt(18, 69, 94, 11), 0, 61));
    assert(G2Point::smul_steps(g2_pt(0, 3, 9, 49), g2_pt(18, 69, 94, 11), 0, 61) == G2Point::smul_steps(g2_pt(0, 3, 9, 49), g2_pt(93, 48, 94, 99), 0, 60));
    assert(G2Point::smul_steps(g2_pt(0, 3, 9, 49), g2_pt(93, 48, 94, 99), 0, 60) == G2Point::smul_steps(g2_pt(0, 3, 9, 49), g2_pt(18, 35, 17, 99), 0, 59));
}

/// `2 H` by double-and-add.
pub(crate) proof fn lemma_multiple_2_value()
    ensures
        G2Point::sgenerator().smul(2) == g2_pt(38, 33, 61, 75),
{
    lemma_doubling_chain();
    lemma_table_additions();
    G2Point::lemma_smul_steps_zero(g2_pt(38, 33, 61, 75), g2_pt(18, 35, 17, 99), 59);
    assert(G2Point::smul_steps(G2Point::Infinity, g2_pt(0, 3, 9, 49), 2, 64) == G2Point::smul_steps(G2Point::Infinity, g2_pt(38, 33, 61, 75), 1, 63));
    assert(G2Point::smul_steps(G2Point::Infinity, g2_pt(38, 33, 61, 75), 1, 63) == G2Point::smul_steps(g2_pt(38, 33, 61, 75), g2_pt(5, 72, 16, 44), 0, 62));
    assert(G2Point::smul_steps(g2_pt(38, 33, 61, 75), g2_pt(5, 72, 16, 44), 0, 62) == G2Point::smul_steps(g2_pt(38, 33, 61, 75), g2_pt(18, 69, 94, 11), 0, 61));
    assert(G2Point::smul_steps(g2_pt(38, 33, 61, 75), g2_pt(18, 69, 94, 11), 0, 61) == G2Point::smul_steps(g2_pt(38, 33, 61, 75), g2_pt(93, 48, 94, 99), 0, 60));
    assert(G2Point::smul_steps(g2_pt(38, 33, 61, 75), g2_pt(93, 48, 94, 99), 0, 60) == G2Point::smul_steps(g2_pt(38, 33, 61, 75), g2_pt(18, 35, 17, 99), 0, 59));
}

/// `3 H` by double-and-add.
pub(crate) proof fn lemma_multiple_3_value()
    ensures
        G2Point::sgenerator().smul(3) == g2_pt(19, 91, 88, 44),
{
    lemma_doubling_chain();
    lemma_table_additions();
    G2Point::lemma_smul_steps_zero(g2_pt(19, 91, 88, 44), g2_pt(18, 35, 17, 99), 59);
    assert(G2Point::smul_steps(G2Point::Infinity, g2_pt(0, 3, 9, 49), 3, 64) == G2Point::smul_steps(g2_pt(0, 3, 9, 49), g2_pt(38, 33, 61, 75), 1, 63));
    assert(G2Point::smul_steps(g2_pt(0, 3, 9, 49), g2_pt(38, 33, 61, 75), 1, 63) == G2Point::smul_steps(g2_pt(19, 91, 88, 44), g2_pt(5, 72, 16, 44), 0, 62));
    assert(G2Point::smul_steps(g2_pt(19, 91, 88, 44), g2_pt(5, 72, 16, 44), 0, 62) == G2Point::smul_steps(g2_pt(19, 91, 88, 44), g2_pt(18, 69, 94, 11), 0, 61));
    assert(G2Point::smul_steps(g2_pt(19, 91, 88, 44), g2_pt(18, 69, 94, 11), 0, 61) == G2Point::smul_steps(g2_pt(19, 91, 88, 44), g2_pt(93, 48, 94, 99), 0, 60));
    assert(G2Point::smul_steps(g2_pt(19, 91, 88, 44), g2_pt(93, 48, 94, 99), 0, 60) == G2Point::smul_steps(g2_pt(19, 91, 88, 44), g2_pt(18, 35, 17, 99), 0, 59));
}

/// `4 H` by double-and-add.
pub(crate) proof fn lemma_multiple_4_value()
    ensures
        G2Point::sgenerator().smul(4) == g2_pt(5, 72, 16, 44),
{
    lemma_doubling_chain();
    lemma_table_additions();
    G2Point::lemma_smul_steps_zero(g2_pt(5, 72, 16, 44), g2_pt(18, 35, 17, 99), 59);
    assert(G2Point::smul_steps(G2Point::Infinity, g2_pt(0, 3, 9, 49), 4, 64) == G2Point::smul_steps(G2Point::Infinity, g2_pt(38, 33, 61, 75), 2, 63));
    assert(G2Point::smul_steps(G2Point::Infinity, g2_pt(38, 33, 61, 75), 2, 63) == G2Point::smul_steps(G2Point::Infinity, g2_pt(5, 72, 16, 44), 1, 62));
    assert(G2Point::smul_steps(G2Point::Infinity, g2_pt(5, 72, 16, 44), 1, 62) == G2Point::smul_steps(g2_pt(5, 72, 16, 44), g2_pt(18, 69, 94, 11), 0, 61));
    assert(G2Point::smul_steps(g2_pt(5, 72, 16, 44), g2_pt(18, 69, 94, 11), 0, 61) == G2Point::smul_steps(g2_pt(5, 72, 16, 44), g2_pt(93, 48, 94, 99), 0, 60));
    assert(G2Point::smul_steps(g2_pt(5, 72, 16, 44), g2_pt(93, 48, 94, 99), 0, 60) == G2Point::smul_steps(g2_pt(5, 72, 16, 44), g2_pt(18, 35, 17, 99), 0, 59));
}

/// `5 H` by double-and-add.
pub(crate) proof fn lemma_multiple_5_value()
    ensures
        G2Point::sgenerator().smul(5) == g2_pt(69, 33, 71, 86),
{
    lemma_doubling_chain();
    lemma_table_additions();
    G2Point::lemma_smul_steps_zero(g2_pt(69, 33, 71, 86), g2_pt(18, 35, 17, 99), 59);
    assert(G2Point::smul_steps(G2Point::Infinity, g2_pt(0, 3, 9, 49), 5, 64) == G2Point::smul_steps(g2_pt(0, 3, 9, 49), g2_pt(38, 33, 61, 75), 2, 63));
    assert(G2Point::smul_steps(g2_pt(0, 3, 9, 49), g2_pt(38, 33, 61, 75), 2, 63) == G2Point::smul_steps(g2_pt(0, 3, 9, 49), g2_pt(5, 72, 16, 44), 1, 62));
    assert(G2Point::smul_steps(g2_pt(0, 3, 9, 49), g2_pt(5, 72, 16, 44), 1, 62) == G2Point::smul_steps(g2_pt(69, 33, 71, 86), g2_pt(18, 69, 94, 11), 0, 61));
    assert(G2Point::smul_steps(g2_pt(69, 33, 71, 86), g2_pt(18, 69, 94, 11), 0, 61) == G2Point::smul_steps(g2_pt(69, 33, 71, 86), g2_pt(93, 48, 94, 99), 0, 60));
    assert(G2Point::smul_steps(g2_pt(69, 33, 71, 86), g2_pt(93, 48, 94, 99), 0, 60) == G2Point::smul_steps(g2_pt(69, 33, 71, 86), g2_pt(18, 35, 17, 99), 0, 59));
}

/// `6 H` by double-and-add.
pub(crate) proof fn lemma_multiple_6_value()
    ensures
        G2Point::sgenerator().smul(6) == g2_pt(57, 46, 17, 52),
{
    lemma_doubling_chain();
    lemma_table_additions();
    G2Point::lemma_smul_steps_zero(g2_pt(57, 46, 17, 52), g2_pt(18, 35, 17, 99), 59);
    assert(G2Point::smul_steps(G2Point::Infinity, g2_pt(0, 3, 9, 49), 6, 64) == G2Point::smul_steps(G2Point::Infinity, g2_pt(38, 33, 61, 75), 3, 63));
    assert(G2Point::smul_steps(G2Point::Infinity, g2_pt(38, 33, 61, 75), 3, 63) == G2Point::smul_steps(g2_pt(38, 33, 61, 75), g2_pt(5, 72, 16, 44), 1, 62));
    assert(G2Point::smul_steps(g2_pt(38, 33, 61, 75), g2_pt(5, 72, 16, 44), 1, 62) == G2Point::smul_steps(g2_pt(57, 46, 17, 52), g2_pt(18, 69, 94, 11), 0, 61));
    assert(G2Point::smul_steps(g2_pt(57, 46, 17, 52), g2_pt(18, 69, 94, 11), 0, 61) == G2Point::smul_steps(g2_pt(57, 46, 17, 52), g2_pt(93, 48, 94, 99), 0, 60));
    assert(G2Point::smul_steps(g2_pt(57, 46, 17, 52), g2_pt(93, 48, 94, 99), 0, 60) == G2Point::smul_steps(g2_pt(57, 46, 17, 52), g2_pt(18, 35, 17, 99), 0, 59));
}

/// `7 H` by double-and-add.
pub(crate) proof fn lemma_multiple_7_value()
    ensures
        G2Point::sgenerator().smul(7) == g2_pt(81, 47, 93, 16),
{
    lemma_doubling_chain();
    lemma_table_additions();
    G2Point::lemma_smul_steps_zero(g2_pt(81, 47, 93, 16), g2_pt(18, 35, 17, 99), 59);
    assert(G2Point::smul_steps(G2Point::Infinity, g2_pt(0, 3, 9, 49), 7, 64) == G2Point::smul_steps(g2_pt(0, 3, 9, 49), g2_pt(38, 33, 61, 75), 3, 63));
    assert(G2Point::smul_steps(g2_pt(0, 3, 9, 49), g2_pt(38, 33, 61, 75), 3, 63) == G2Point::smul_steps(g2_pt(19, 91, 88, 44), g2_pt(5, 72, 16, 44), 1, 62));
    assert(G2Point::smul_steps(g2_pt(19, 91, 88, 44), g2_pt(5, 72, 16, 44), 1, 62) == G2Point::smul_steps(g2_pt(81, 47, 93, 16), g2_pt(18, 69, 94, 11), 0, 61));
    assert(G2Point::smul_steps(g2_pt(81, 47, 93, 16), g2_pt(18, 69, 94, 11), 0, 61) == G2Point::smul_steps(g2_pt(81, 47, 93, 16), g2_pt(93, 48, 94, 99), 0, 60));
    assert(G2Point::smul_steps(g2_pt(81, 47, 93, 16), g2_pt(93, 48, 94, 99), 0, 60) == G2Point::smul_steps(g2_pt(81, 47, 93, 16), g2_pt(18, 35, 17, 99), 0, 59));
}

/// `8 H` by double-and-add.
pub(crate) proof fn lemma_multiple_8_value()
    ensures
        G2Point::sgenerator().smul(8) == g2_pt(18, 69, 94, 11),
{
    lemma_doubling_chain();
    lemma_table_additions();
    G2Point::lemma_smul_steps_zero(g2_pt(18, 69, 94, 11), g2_pt(18, 35, 17, 99), 59);
    assert(G2Point::smul_steps(G2Point::Infinity, g2_pt(0, 3, 9, 49), 8, 64) == G2Point::smul_steps(G2Point::Infinity, g2_pt(38, 33, 61, 75), 4, 63));
    assert(G2Point::smul_steps(G2Point::Infinity, g2_pt(38, 33, 61, 75), 4, 63) == G2Point::smul_steps(G2Point::Infinity, g2_pt(5, 72, 16, 44), 2, 62));
    assert(G2Point::smul_steps(G2Point::Infinity, g2_pt(5, 72, 16, 44), 2, 62) == G2Point::smul_steps(G2Point::Infinity, g2_pt(18, 69, 94, 11), 1, 61));
    assert(G2Point::smul_steps(G2Point::Infinity, g2_pt(18, 69, 94, 11), 1, 61) == G2Point::smul_steps(g2_pt(18, 69, 94, 11), g2_pt(93, 48, 94, 99), 0, 60));
    assert(G2Point::smul_steps(g2_pt(18, 69, 94, 11), g2_pt(93, 48, 94, 99), 0, 60) == G2Point::smul_steps(g2_pt(18, 69, 94, 11), g2_pt(18, 35, 17, 99), 0, 59));
}

/// `9 H` by double-and-add.
pub(crate) proof fn lemma_multiple_9_value()
    ensures
        G2Point::sgenerator().smul(9) == g2_pt(83, 80, 84, 22),
{
    lemma_doubling_chain();
    lemma_table_additions();
    G2Point::lemma_smul_steps_zero(g2_pt(83, 80, 84, 22), g2_pt(18, 35, 17, 99), 59);
    assert(G2Point::smul_steps(G2Point::Infinity, g2_pt(0, 3, 9, 49), 9, 64) == G2Point::smul_steps(g2_pt(0, 3, 9, 49), g2_pt(38, 33, 61, 75), 4, 63));
    assert(G2Point::smul_steps(g2_pt(0, 3, 9, 49), g2_pt(38, 33, 61, 75), 4, 63) == G2Point::smul_steps(g2_pt(0, 3, 9, 49), g2_pt(5, 72, 16, 44), 2, 62));
    assert(G2Point::smul_steps(g2_pt(0, 3, 9, 49), g2_pt(5, 72, 16, 44), 2, 62) == G2Point::smul_steps(g2_pt(0, 3, 9, 49), g2_pt(18, 69, 94, 11), 1, 61));
    assert(G2Point::smul_steps(g2_pt(0, 3, 9, 49), g2_pt(18, 69, 94, 11), 1, 61) == G2Point::smul_steps(g2_pt(83, 80, 84, 22), g2_pt(93, 48, 94, 99), 0, 60));
    assert(G2Point::smul_steps(g2_pt(83, 80, 84, 22), g2_pt(93, 48, 94, 99), 0, 60) == G2Point::smul_steps(g2_pt(83, 80, 84, 22), g2_pt(18, 35, 17, 99), 0, 59));
}

/// `10 H` by double-and-add.
pub(crate) proof fn lemma_multiple_10_value()
    ensures
        G2Point::sgenerator().smul(10) == g2_pt(65, 87, 47, 11),
{
    lemma_doubling_chain();
    lemma_table_additions();
    G2Point::lemma_smul_steps_zero(g2_pt(65, 87, 47, 11), g2_pt(18, 35, 17, 99), 59);
    assert(G2Point::smul_steps(G2Point::Infinity, g2_pt(0, 3, 9, 49), 10, 64) == G2Point::smul_steps(G2Point::Infinity, g2_pt(38, 33, 61, 75), 5, 63));
    assert(G2Point::smul_steps(G2Point::Infinity, g2_pt(38, 33, 61, 75), 5, 63) == G2Point::smul_steps(g2_pt(38, 33, 61, 75), g2_pt(5, 72, 16, 44), 2, 62));
    assert(G2Point::smul_steps(g2_pt(38, 33, 61, 75), g2_pt(5, 72, 16, 44), 2, 62) == G2Point::smul_steps(g2_pt(38, 33, 61, 75), g2_pt(18, 69, 94, 11), 1, 61));
    assert(G2Point::smul_steps(g2_pt(38, 33, 61, 75), g2_pt(18, 69, 94, 11), 1, 61) == G2Point::smul_steps(g2_pt(65, 87, 47, 11), g2_pt(93, 48, 94, 99), 0, 60));
    assert(G2Point::smul_steps(g2_pt(65, 87, 47, 11), g2_pt(93, 48, 94, 99), 0, 60) == G2Point::smul_steps(g2_pt(65, 87, 47, 11), g2_pt(18, 35, 17, 99), 0, 59));
}

/// `11 H` by double-and-add.
pub(crate) proof fn lemma_multiple_11_value()
    ensures
        G2Point::sgenerator().smul(11) == g2_pt(61, 30, 84, 76),
{
    lemma_doubling_chain();
    lemma_table_additions();
    G2Point::lemma_smul_steps_zero(g2_pt(61, 30, 84, 76), g2_pt(18, 35, 17, 99), 59);
    assert(G2Point::smul_steps(G2Point::Infinity, g2_pt(0, 3, 9, 49), 11, 64) == G2Point::smul_steps(g2_pt(0, 3, 9, 49), g2_pt(38, 33, 61, 75), 5, 63));
    assert(G2Point::smul_steps(g2_pt(0, 3, 9, 49), g2_pt(38, 33, 61, 75), 5, 63) == G2Point::smul_steps(g2_pt(19, 91, 88, 44), g2_pt(5, 72, 16, 44), 2, 62));
    assert(G2Point::smul_steps(g2_pt(19, 91, 88, 44), g2_pt(5, 72, 16, 44), 2, 62) == G2Point::smul_steps(g2_pt(19, 91, 88, 44), g2_pt(18, 69, 94, 11), 1, 61));
    assert(G2Point::smul_steps(g2_pt(19, 91, 88, 44), g2_pt(18, 69, 94, 11), 1, 61) == G2Point::smul_steps(g2_pt(61, 30, 84, 76), g2_pt(93, 48, 94, 99), 0, 60));
    assert(G2Point::smul_steps(g2_pt(61, 30, 84, 76), g2_pt(93, 48, 94, 99), 0, 60) == G2Point::smul_steps(g2_pt(61, 30, 84, 76), g2_pt(18, 35, 17, 99), 0, 59));
}

/// `12 H` by double-and-add.
pub(crate) proof fn lemma_multiple_12_value()
    ensures
        G2Point::sgenerator().smul(12) == g2_pt(29, 87, 70, 40),
{
    lemma_doubling_chain();
    lemma_table_additions();
    G2Point::lemma_smul_steps_zero(g2_pt(29, 87, 70, 40), g2_pt(18, 35, 17, 99), 59);
    assert(G2Point::smul_steps(G2Point::Infinity, g2_pt(0, 3, 9, 49), 12, 64) == G2Point::smul_steps(G2Point::Infinity, g2_pt(38, 33, 61, 75), 6, 63));
    assert(G2Point::smul_steps(G2Point::Infinity, g2_pt(38, 33, 61, 75), 6, 63) == G2Point::smul_steps(G2Point::Infinity, g2_pt(5, 72, 16, 44), 3, 62));
    assert(G2Point::smul_steps(G2Point::Infinity, g2_pt(5, 72, 16, 44), 3, 62) == G2Point::smul_steps(g2_pt(5, 72, 16, 44), g2_pt(18, 69, 94, 11), 1, 61));
    assert(G2Point::smul_steps(g2_pt(5, 72, 16, 44), g2_pt(18, 69, 94, 11), 1, 61) == G2Point::smul_steps(g2_pt(29, 87, 70, 40), g2_pt(93, 48, 94, 99), 0, 60));
    assert(G2Point::smul_steps(g2_pt(29, 87, 70, 40), g2_pt(93, 48, 94, 99), 0, 60) == G2Point::smul_steps(g2_pt(29, 87, 70, 40), g2_pt(18, 35, 17, 99), 0, 59));
}

/// `13 H` by double-and-add.
pub(crate) proof fn lemma_multiple_13_value()
    ensures
        G2Point::sgenerator().smul(13) == g2_pt(4, 46, 3, 36),
{
    lemma_doubling_chain();
    lemma_table_additions();
    G2Point::lemma_smul_steps_zero(g2_pt(4, 46, 3, 36), g2_pt(18, 35, 17, 99), 59);
    assert(G2Point::smul_steps(G2Point::Infinity, g2_pt(0, 3, 9, 49), 13, 64) == G2Point::smul_steps(g2_pt(0, 3, 9, 49), g2_pt(38, 33, 61, 75), 6, 63));
    assert(G2Point::smul_steps(g2_pt(0, 3, 9, 49), g2_pt(38, 33, 61, 75), 6, 63) == G2Point::smul_steps(g2_pt(0, 3, 9, 49), g2_pt(5, 72, 16, 44), 3, 62));
    assert(G2Point::smul_steps(g2_pt(0, 3, 9, 49), g2_pt(5, 72, 16, 44), 3, 62) == G2Point::smul_steps(g2_pt(69, 33, 71, 86), g2_pt(18, 69, 94, 11), 1, 61));
    assert(G2Point::smul_steps(g2_pt(69, 33, 71, 86), g2_pt(18, 69, 94, 11), 1, 61) == G2Point::smul_steps(g2_pt(4, 46, 3, 36), g2_pt(93, 48, 94, 99), 0, 60));
    assert(G2Point::smul_steps(g2_pt(4, 46, 3, 36), g2_pt(93, 48, 94, 99), 0, 60) == G2Point::smul_steps(g2_pt(4, 46, 3, 36), g2_pt(18, 35, 17, 99), 0, 59));
}

/// `14 H` by double-and-add.
pub(crate) proof fn lemma_multiple_14_value()
    ensures
        G2Point::sgenerator().smul(14) == g2_pt(42, 100, 84, 16),
{
    lemma_doubling_chain();
    lemma_table_additions();
    G2Point::lemma_smul_steps_zero(g2_pt(42, 100, 84, 16), g2_pt(18, 35, 17, 99), 59);
    assert(G2Point::smul_steps(G2Point::Infinity, g2_pt(0, 3, 9, 49), 14, 64) == G2Point::smul_steps(G2Point::Infinity, g2_pt(38, 33, 61, 75), 7, 63));
    assert(G2Point::smul_steps(G2Point::Infinity, g2_pt(38, 33, 61, 75), 7, 63) == G2Point::smul_steps(g2_pt(38, 33, 61, 75), g2_pt(5, 72, 16, 44), 3, 62));
    assert(G2Point::smul_steps(g2_pt(38, 33, 61, 75), g2_pt(5, 72, 16, 44), 3, 62) == G2Point::smul_steps(g2_pt(57, 46, 17, 52), g2_pt(18, 69, 94, 11), 1, 61));
    assert(G2Point::smul_steps(g2_pt(57, 46, 17, 52), g2_pt(18, 69, 94, 11), 1, 61) == G2Point::smul_steps(g2_pt(42, 100, 84, 16), g2_pt(93, 48, 94, 99), 0, 60));
    assert(G2Point::smul_steps(g2_pt(42, 100, 84, 16), g2_pt(93, 48, 94, 99), 0, 60) == G2Point::smul_steps(g2_pt(42, 100, 84, 16), g2_pt(18, 35, 17, 99), 0, 59));
}

/// `15 H` by double-and-add.
pub(crate) proof fn lemma_multiple_15_value()
    ensures
        G2Point::sgenerator().smul(15) == g2_pt(71, 14, 32, 68),
{
    lemma_doubling_chain();
    lemma_table_additions();
    G2Point::lemma_smul_steps_zero(g2_pt(71, 14, 32, 68), g2_pt(18, 35, 17, 99), 59);
    assert(G2Point::smul_steps(G2Point::Infinity, g2_pt(0, 3, 9, 49), 15, 64) == G2Point::smul_steps(g2_pt(0, 3, 9, 49), g2_pt(38, 33, 61, 75), 7, 63));
    assert(G2Point::smul_steps(g2_pt(0, 3, 9, 49), g2_pt(38, 33, 61, 75), 7, 63) == G2Point::smul_steps(g2_pt(19, 91, 88, 44), g2_pt(5, 72, 16, 44), 3, 62));
    assert(G2Point::smul_steps(g2_pt(19, 91, 88, 44), g2_pt(5, 72, 16, 44), 3, 62) == G2Point::smul_steps(g2_pt(81, 47, 93, 16), g2_pt(18, 69, 94, 11), 1, 61));
    assert(G2Point::smul_steps(g2_pt(81, 47, 93, 16), g2_pt(18, 69, 94, 11), 1, 61) == G2Point::smul_steps(g2_pt(71, 14, 32, 68), g2_pt(93, 48, 94, 99), 0, 60));
    assert(G2Point::smul_steps(g2_pt(71, 14, 32, 68), g2_pt(93, 48, 94, 99), 0, 60) == G2Point::smul_steps(g2_pt(71, 14, 32, 68), g2_pt(18, 35, 17, 99), 0, 59));
}

/// `16 H` by double-and-add.
pub(crate) proof fn lemma_multiple_16_value()
    ensures
        G2Point::sgenerator().smul(16) == g2_pt(93, 48, 94, 99),
{
    lemma_doubling_chain();
    lemma_table_additions();
    G2Point::lemma_smul_steps_zero(g2_pt(93, 48, 94, 99), g2_pt(18, 35, 17, 99), 59);
    assert(G2Point::smul_steps(G2Point::Infinity, g2_pt(0, 3, 9, 49), 16, 64) == G2Point::smul_steps(G2Point::Infinity, g2_pt(38, 33, 61, 75), 8, 63));
    assert(G2Point::smul_steps(G2Point::Infinity, g2_pt(38, 33, 61, 75), 8, 63) == G2Point::smul_steps(G2Point::Infinity, g2_pt(5, 72, 16, 44), 4, 62));
    assert(G2Point::smul_steps(G2Point::Infinity, g2_pt(5, 72, 16, 44), 4, 62) == G2Point::smul_steps(G2Point::Infinity, g2_pt(18, 69, 94, 11), 2, 61));
    assert(G2Point::smul_steps(G2Point::Infinity, g2_pt(18, 69, 94, 11), 2, 61) == G2Point::smul_steps(G2Point::Infinity, g2_pt(93, 48, 94, 99), 1, 60));
    assert(G2Point::smul_steps(G2Point::Infinity, g2_pt(93, 48, 94, 99), 1, 60) == G2Point::smul_steps(g2_pt(93, 48, 94, 99), g2_pt(18, 35, 17, 99), 0, 59));
}

proof fn lemma_wide_addition_0()
    ensures
        g2_pt(0, 3, 9, 49).add_defined(g2_pt(93, 48, 94, 99)),
        g2_pt(0, 3, 9, 49).sadd(g2_pt(93, 48, 94, 99)) == g2_pt(88, 97, 86, 52),
{
    lemma_g2_add_at(
        (0, 3),
        (9, 49),
        (93, 48),
        (94, 99),
        (85, 50),
        (93, 45),
        69,
        41,
        (76, 74),
        (33, 91),
        (80, 47),
        (88, 97),
        (95, 0),
        (86, 52),
        (0, 0, 0, 0, 105, 28, 37, -19, 27, 99),
        (-72, 59, -1, -1, 55, -110, 0, -1),
    );
}

proof fn lemma_wide_addition_1()
    ensures
        g2_pt(38, 33, 61, 75).add_defined(g2_pt(93, 48, 94, 99)),
        g2_pt(38, 33, 61, 75).sadd(g2_pt(93, 48, 94, 99)) == g2_pt(47, 93, 36, 90),
{
    lemma_g2_add_at(
        (38, 33),
        (61, 75),
        (93, 48),
        (94, 99),
        (33, 24),
        (55, 15),
        18,
        73,
        (76, 16),
        (3, 29),
        (77, 73),
        (47, 93),
        (97, 64),
        (36, 90),
        (0, 0, 0, 0, 32, 13, 39, -11, 21, 23),
        (-9, 1, -1, -1, 16, -5, 0, -1),
    );
}

proof fn lemma_wide_addition_2()
    ensures
        g2_pt(19, 91, 88, 44).add_defined(g2_pt(93, 48, 94, 99)),
        g2_pt(19, 91, 88, 44).sadd(g2_pt(93, 48, 94, 99)) == g2_pt(91, 12, 80, 42),
{
    lemma_g2_add_at(
        (19, 91),
        (88, 44),
        (93, 48),
        (94, 99),
        (6, 55),
        (74, 58),
        53,
        61,
        (70, 98),
        (80, 95),
        (1, 50),
        (91, 12),
        (67, 86),
        (80, 42),
        (0, 0, 0, -1, 87, 32, 44, -36, -50, 43),
        (-26, 150, -2, -1, -132, -6, -1, 0),
    );
}

proof fn lemma_wide_addition_3()
    ensures
        g2_pt(5, 72, 16, 44).add_defined(g2_pt(93, 48, 94, 99)),
        g2_pt(5, 72, 16, 44).sadd(g2_pt(93, 48, 94, 99)) == g2_pt(88, 55, 22, 34),
{
    lemma_g2_add_at(
        (5, 72),
        (16, 44),
        (93, 48),
        (94, 99),
        (78, 55),
        (88, 77),
        38,
        8,
        (98, 91),
        (13, 65),
        (85, 74),
        (88, 55),
        (38, 78),
        (22, 34),
        (0, 0, 0, -1, 135, 3, 6, -7, 26, 123),
        (-41, 16, -1, -1, -22, -52, 0, 0),
    );
}

proof fn lemma_wide_addition_4()
    ensures
        g2_pt(69, 33, 71, 86).add_defined(g2_pt(93, 48, 94, 99)),
        g2_pt(69, 33, 71, 86).sadd(g2_pt(93, 48, 94, 99)) == g2_pt(36, 63, 55, 39),
{
    lemma_g2_add_at(
        (69, 33),
        (71, 86),
        (93, 48),
        (94, 99),
        (23, 13),
        (24, 15),
        94,
        72,
        (11, 31),
        (52, 48),
        (97, 43),
        (36, 63),
        (25, 24),
        (55, 39),
        (0, 0, 0, 0, 7, 67, 17, -11, -2, 8),
        (3, 49, -1, -1, 31, 0, -1, -1),
    );
}

proof fn lemma_wide_addition_5()
    ensures
        g2_pt(57, 46, 17, 52).add_defined(g2_pt(93, 48, 94, 99)),
        g2_pt(57, 46, 17, 52).sadd(g2_pt(93, 48, 94, 99)) == g2_pt(61, 3, 63, 78),
{
    lemma_g2_add_at(
        (57, 46),
        (17, 52),
        (93, 48),
        (94, 99),
        (77, 47),
        (36, 2),
        88,
        31,
        (5, 39),
        (67, 6),
        (9, 97),
        (61, 3),
        (80, 29),
        (63, 78),
        (0, 0, 0, 0, 12, 27, 11, -1, -15, 32),
        (44, 7, -2, 0, -6, 28, 0, -1),
    );
}

proof fn lemma_wide_addition_6()
    ensures
        g2_pt(81, 47, 93, 16).add_defined(g2_pt(93, 48, 94, 99)),
        g2_pt(81, 47, 93, 16).sadd(g2_pt(93, 48, 94, 99)) == g2_pt(5, 76, 13, 86),
{
    lemma_g2_add_at(
        (81, 47),
        (93, 16),
        (93, 48),
        (94, 99),
        (1, 83),
        (12, 1),
        44,
        62,
        (37, 39),
        (32, 80),
        (78, 70),
        (5, 76),
        (5, 1),
        (13, 86),
        (0, 0, 0, 0, 1, 27, 7, -1, -32, 30),
        (-54, 50, -1, -1, 47, 51, -1, -1),
    );
}

proof fn lemma_wide_addition_7()
    ensures
        g2_pt(18, 69, 94, 11).add_defined(g2_pt(93, 48, 94, 99)),
        g2_pt(18, 69, 94, 11).sadd(g2_pt(93, 48, 94, 99)) == g2_pt(96, 94, 21, 63),
{
    lemma_g2_add_at(
        (18, 69),
        (94, 11),
        (93, 48),
        (94, 99),
        (0, 88),
        (75, 80),
        6,
        17,
        (63, 54),
        (96, 90),
        (5, 9),
        (96, 94),
        (14, 74),
        (21, 63),
        (0, 0, 0, -1, 119, 1, 12, -14, -48, 54),
        (11, 171, -2, -2, -52, -94, -1, 0),
    );
}

proof fn lemma_wide_addition_8()
    ensures
        g2_pt(83, 80, 84, 22).add_defined(g2_pt(93, 48, 94, 99)),
        g2_pt(83, 80, 84, 22).sadd(g2_pt(93, 48, 94, 99)) == g2_pt(68, 31, 10, 9),
{
    lemma_g2_add_at(
        (83, 80),
        (84, 22),
        (93, 48),
        (94, 99),
        (10, 77),
        (10, 69),
        13,
        70,
        (94, 18),
        (59, 45),
        (42, 58),
        (68, 31),
        (94, 31),
        (10, 9),
        (0, 0, 0, -1, 48, 9, 6, -48, -5, 73),
        (14, 52, -2, -1, -14, 35, 0, 0),
    );
}

proof fn lemma_wide_addition_9()
    ensures
        g2_pt(65, 87, 47, 11).add_defined(g2_pt(93, 48, 94, 99)),
        g2_pt(65, 87, 47, 11).sadd(g2_pt(93, 48, 94, 99)) == g2_pt(31, 98, 39, 6),
{
    lemma_g2_add_at(
        (65, 87),
        (47, 11),
        (93, 48),
        (94, 99),
        (47, 88),
        (28, 62),
        83,
        28,
        (77, 82),
        (39, 25),
        (88, 31),
        (31, 98),
        (86, 17),
        (39, 6),
        (0, 0, 0, -1, 45, 23, 7, -18, -36, 105),
        (8, 19, -1, -2, 15, 4, 0, 0),
    );
}

proof fn lemma_wide_addition_10()
    ensures
        g2_pt(61, 30, 84, 76).add_defined(g2_pt(93, 48, 94, 99)),
        g2_pt(61, 30, 84, 76).sadd(g2_pt(93, 48, 94, 99)) == g2_pt(5, 95, 77, 68),
{
    lemma_g2_add_at(
        (61, 30),
        (84, 76),
        (93, 48),
        (94, 99),
        (10, 23),
        (32, 18),
        35,
        26,
        (24, 37),
        (96, 13),
        (58, 72),
        (5, 95),
        (60, 43),
        (77, 68),
        (0, 0, 0, 0, 13, 9, 8, -5, -7, 9),
        (89, 24, -1, -1, 61, -55, -1, -1),
    );
}

proof fn lemma_wide_addition_11()
    ensures
        g2_pt(29, 87, 70, 40).add_defined(g2_pt(93, 48, 94, 99)),
        g2_pt(29, 87, 70, 40).sadd(g2_pt(93, 48, 94, 99)) == g2_pt(83, 3, 54, 52),
{
    lemma_g2_add_at(
        (29, 87),
        (70, 40),
        (93, 48),
        (94, 99),
        (24, 59),
        (64, 62),
        62,
        44,
        (89, 100),
        (74, 76),
        (3, 37),
        (83, 3),
        (23, 92),
        (54, 52),
        (0, 0, 0, -1, 78, 27, 27, -28, -38, 75),
        (-3, 111, -2, -1, -103, 20, -1, 0),
    );
}

proof fn lemma_wide_addition_12()
    ensures
        g2_pt(4, 46, 3, 36).add_defined(g2_pt(93, 48, 94, 99)),
        g2_pt(4, 46, 3, 36).sadd(g2_pt(93, 48, 94, 99)) == g2_pt(13, 79, 95, 59),
{
    lemma_g2_add_at(
        (4, 46),
        (3, 36),
        (93, 48),
        (94, 99),
        (91, 63),
        (89, 2),
        47,
        43,
        (90, 15),
        (74, 66),
        (9, 72),
        (13, 79),
        (98, 95),
        (95, 59),
        (0, 0, 0, 0, 78, 20, 37, -1, 71, 69),
        (11, 96, -1, -1, 14, -31, 0, 0),
    );
}

proof fn lemma_wide_addition_13()
    ensures
        g2_pt(42, 100, 84, 16).add_defined(g2_pt(93, 48, 94, 99)),
        g2_pt(42, 100, 84, 16).sadd(g2_pt(93, 48, 94, 99)) == g2_pt(15, 71, 91, 16),
{
    lemma_g2_add_at(
        (42, 100),
        (84, 16),
        (93, 48),
        (94, 99),
        (10, 83),
        (51, 49),
        53,
        61,
        (81, 41),
        (33, 63),
        (49, 17),
        (15, 71),
        (74, 32),
        (91, 16),
        (0, 0, 0, -1, 49, 32, 30, -30, -26, 70),
        (-29, 41, -1, -2, -10, 26, -1, 0),
    );
}

proof fn lemma_wide_addition_14()
    ensures
        g2_pt(71, 14, 32, 68).add_defined(g2_pt(93, 48, 94, 99)),
        g2_pt(71, 14, 32, 68).sadd(g2_pt(93, 48, 94, 99)) == g2_pt(82, 14, 97, 89),
{
    lemma_g2_add_at(
        (71, 14),
        (32, 68),
        (93, 48),
        (94, 99),
        (62, 31),
        (22, 34),
        24,
        80,
        (43, 7),
        (25, 50),
        (44, 76),
        (82, 14),
        (28, 56),
        (97, 89),
        (0, 0, 0, 0, 16, 19, 17, -27, 24, 17),
        (-19, 24, -2, 0, -3, -6, -1, -1),
    );
}

proof fn lemma_wide_addition_15()
    ensures
        g2_pt(0, 3, 9, 49).add_defined(g2_pt(18, 35, 17, 99)),
        g2_pt(0, 3, 9, 49).sadd(g2_pt(18, 35, 17, 99)) == g2_pt(28, 81, 31, 48),
{
    lemma_g2_add_at(
        (0, 3),
        (9, 49),
        (18, 35),
        (17, 99),
        (8, 50),
        (18, 32),
        35,
        26,
        (64, 77),
        (96, 79),
        (46, 18),
        (28, 81),
        (40, 97),
        (31, 48),
        (0, 0, 0, 0, 13, 9, 4, -9, -34, 37),
        (29, 150, 0, -1, 34, -97, 0, 0),
    );
}

proof fn lemma_wide_addition_16()
    ensures
        g2_pt(19, 91, 88, 44).add_defined(g2_pt(18, 35, 17, 99)),
        g2_pt(19, 91, 88, 44).sadd(g2_pt(18, 35, 17, 99)) == g2_pt(74, 36, 41, 66),
{
    lemma_g2_add_at(
        (19, 91),
        (88, 44),
        (18, 35),
        (17, 99),
        (30, 55),
        (100, 45),
        6,
        17,
        (84, 43),
        (54, 52),
        (10, 61),
        (74, 36),
        (28, 9),
        (41, 66),
        (-1, 0, -1, -1, 119, 1, 16, -8, 1, 58),
        (2, 55, -1, -1, -58, 1, -1, -1),
    );
}

proof fn lemma_wide_addition_17()
    ensures
        g2_pt(5, 72, 16, 44).add_defined(g2_pt(18, 35, 17, 99)),
        g2_pt(5, 72, 16, 44).sadd(g2_pt(18, 35, 17, 99)) == g2_pt(99, 37, 73, 94),
{
    lemma_g2_add_at(
        (5, 72),
        (16, 44),
        (18, 35),
        (17, 99),
        (1, 55),
        (13, 64),
        23,
        22,
        (84, 6),
        (57, 81),
        (21, 43),
        (99, 37),
        (89, 37),
        (73, 94),
        (0, 0, 0, -1, 42, 5, 2, -14, -3, 45),
        (-33, 91, -1, -1, -82, -56, 0, -1),
    );
}

proof fn lemma_wide_addition_18()
    ensures
        g2_pt(69, 33, 71, 86).add_defined(g2_pt(18, 35, 17, 99)),
        g2_pt(69, 33, 71, 86).sadd(g2_pt(18, 35, 17, 99)) == g2_pt(36, 59, 100, 63),
{
    lemma_g2_add_at(
        (69, 33),
        (71, 86),
        (18, 35),
        (17, 99),
        (47, 13),
        (50, 2),
        80,
        24,
        (89, 53),
        (60, 12),
        (22, 26),
        (36, 59),
        (70, 48),
        (100, 63),
        (-1, 0, -1, 0, 24, 19, 11, -1, 34, 36),
        (34, 14, -1, -1, 22, -12, -1, -1),
    );
}

proof fn lemma_wide_addition_19()
    ensures
        g2_pt(57, 46, 17, 52).add_defined(g2_pt(18, 35, 17, 99)),
        g2_pt(57, 46, 17, 52).sadd(g2_pt(18, 35, 17, 99)) == g2_pt(84, 54, 53, 10),
{
    lemma_g2_add_at(
        (57, 46),
        (17, 52),
        (18, 35),
        (17, 99),
        (0, 47),
        (62, 90),
        26,
        35,
        (49, 82),
        (85, 81),
        (58, 34),
        (84, 54),
        (70, 62),
        (53, 10),
        (0, 0, -1, -1, 118, 9, 21, -32, -39, 22),
        (6, 136, -1, -1, -17, -29, 0, 0),
    );
}

proof fn lemma_wide_addition_20()
    ensures
        g2_pt(81, 47, 93, 16).add_defined(g2_pt(18, 35, 17, 99)),
        g2_pt(81, 47, 93, 16).sadd(g2_pt(18, 35, 17, 99)) == g2_pt(82, 62, 75, 25),
{
    lemma_g2_add_at(
        (81, 47),
        (93, 16),
        (18, 35),
        (17, 99),
        (25, 83),
        (38, 89),
        73,
        18,
        (78, 14),
        (81, 57),
        (80, 43),
        (82, 62),
        (67, 41),
        (75, 25),
        (-1, 0, -1, -1, 92, 13, 6, -16, 7, 67),
        (32, 91, -1, -1, 7, -13, -1, 0),
    );
}

proof fn lemma_wide_addition_21()
    ensures
        g2_pt(18, 69, 94, 11).add_defined(g2_pt(18, 35, 17, 99)),
        g2_pt(18, 69, 94, 11).sadd(g2_pt(18, 35, 17, 99)) == g2_pt(38, 58, 51, 89),
{
    lemma_g2_add_at(
        (18, 69),
        (94, 11),
        (18, 35),
        (17, 99),
        (24, 88),
        (0, 67),
        45,
        9,
        (0, 3),
        (39, 72),
        (74, 61),
        (38, 58),
        (44, 100),
        (51, 89),
        (-1, 0, 0, -1, 44, 4, 0, -6, -3, 0),
        (-37, 55, 0, -1, -16, -11, -1, 0),
    );
}

proof fn lemma_wide_addition_22()
    ensures
        g2_pt(83, 80, 84, 22).add_defined(g2_pt(18, 35, 17, 99)),
        g2_pt(83, 80, 84, 22).sadd(g2_pt(18, 35, 17, 99)) == g2_pt(75, 88, 57, 60),
{
    lemma_g2_add_at(
        (83, 80),
        (84, 22),
        (18, 35),
        (17, 99),
        (34, 77),
        (36, 56),
        89,
        42,
        (98, 72),
        (10, 96),
        (75, 1),
        (75, 88),
        (40, 82),
        (57, 60),
        (-1, 0, -1, -1, 43, 37, 14, -24, -22, 98),
        (-91, 19, -1, -2, 8, 6, -1, 0),
    );
}

proof fn lemma_wide_addition_23()
    ensures
        g2_pt(65, 87, 47, 11).add_defined(g2_pt(18, 35, 17, 99)),
        g2_pt(65, 87, 47, 11).sadd(g2_pt(18, 35, 17, 99)) == g2_pt(46, 46, 69, 64),
{
    lemma_g2_add_at(
        (65, 87),
        (47, 11),
        (18, 35),
        (17, 99),
        (71, 88),
        (54, 49),
        65,
        14,
        (49, 21),
        (15, 46),
        (28, 67),
        (46, 46),
        (15, 75),
        (69, 64),
        (-1, 0, -1, -1, 52, 9, 7, -7, 16, 57),
        (-19, 13, -1, -1, -16, 14, -1, 0),
    );
}

proof fn lemma_wide_addition_24()
    ensures
        g2_pt(61, 30, 84, 76).add_defined(g2_pt(18, 35, 17, 99)),
        g2_pt(61, 30, 84, 76).sadd(g2_pt(18, 35, 17, 99)) == g2_pt(55, 2, 59, 75),
{
    lemma_g2_add_at(
        (61, 30),
        (84, 76),
        (18, 35),
        (17, 99),
        (34, 23),
        (58, 5),
        56,
        92,
        (84, 45),
        (3, 28),
        (33, 67),
        (55, 2),
        (42, 50),
        (59, 75),
        (-1, 0, -1, 0, 33, 51, 52, -5, 18, 34),
        (-8, 1, -1, 0, -8, 2, -1, -1),
    );
}

proof fn lemma_wide_addition_25()
    ensures
        g2_pt(29, 87, 70, 40).add_defined(g2_pt(18, 35, 17, 99)),
        g2_pt(29, 87, 70, 40).sadd(g2_pt(18, 35, 17, 99)) == g2_pt(71, 46, 11, 55),
{
    lemma_g2_add_at(
        (29, 87),
        (70, 40),
        (18, 35),
        (17, 99),
        (48, 59),
        (90, 49),
        98,
        67,
        (71, 50),
        (54, 24),
        (17, 67),
        (71, 46),
        (81, 95),
        (11, 55),
        (-1, 0, -1, -1, 103, 65, 59, -33, 4, 65),
        (23, 25, -1, -1, -33, 11, 0, 0),
    );
}

proof fn lemma_wide_addition_26()
    ensures
        g2_pt(4, 46, 3, 36).add_defined(g2_pt(18, 35, 17, 99)),
        g2_pt(4, 46, 3, 36).sadd(g2_pt(18, 35, 17, 99)) == g2_pt(80, 18, 17, 12),
{
    lemma_g2_add_at(
        (4, 46),
        (3, 36),
        (18, 35),
        (17, 99),
        (14, 63),
        (14, 90),
        14,
        65,
        (1, 8),
        (15, 74),
        (1, 99),
        (80, 18),
        (20, 48),
        (17, 12),
        (0, 0, 0, -1, 82, 9, 9, -58, -5, 1),
        (-52, 21, -1, 0, -32, -52, 0, 0),
    );
}

proof fn lemma_wide_addition_27()
    ensures
        g2_pt(42, 100, 84, 16).add_defined(g2_pt(18, 35, 17, 99)),
        g2_pt(42, 100, 84, 16).sadd(g2_pt(18, 35, 17, 99)) == g2_pt(16, 58, 74, 80),
{
    lemma_g2_add_at(
        (42, 100),
        (84, 16),
        (18, 35),
        (17, 99),
        (34, 83),
        (77, 36),
        54,
        58,
        (22, 33),
        (29, 19),
        (76, 92),
        (16, 58),
        (57, 96),
        (74, 80),
        (-1, 0, -1, -1, 71, 31, 44, -21, -20, 29),
        (4, 10, 0, -1, -1, 16, -1, 0),
    );
}

proof fn lemma_wide_addition_28()
    ensures
        g2_pt(71, 14, 32, 68).add_defined(g2_pt(18, 35, 17, 99)),
        g2_pt(71, 14, 32, 68).sadd(g2_pt(18, 35, 17, 99)) == g2_pt(26, 64, 40, 2),
{
    lemma_g2_add_at(
        (71, 14),
        (32, 68),
        (18, 35),
        (17, 99),
        (86, 31),
        (48, 21),
        18,
        73,
        (70, 83),
        (13, 16),
        (14, 12),
        (26, 64),
        (72, 70),
        (40, 2),
        (-1, 0, -1, 0, 27, 13, 34, -16, 34, 92),
        (-1, 4, -1, -1, 13, 0, 0, 0),
    );
}

proof fn lemma_wide_addition_29()
    ensures
        g2_pt(93, 48, 94, 99).add_defined(g2_pt(18, 35, 17, 99)),
        g2_pt(93, 48, 94, 99).sadd(g2_pt(18, 35, 17, 99)) == g2_pt(25, 31, 96, 35),
{
    lemma_g2_add_at(
        (93, 48),
        (94, 99),
        (18, 35),
        (17, 99),
        (24, 0),
        (26, 88),
        37,
        71,
        (28, 14),
        (66, 33),
        (35, 13),
        (25, 31),
        (89, 33),
        (96, 35),
        (-1, 0, -1, -1, 83, 26, 18, -62, 6, 3),
        (32, 43, -1, -1, 38, 33, -1, -1),
    );
}

proof fn lemma_wide_addition_30()
    ensures
        g2_pt(88, 97, 86, 52).add_defined(g2_pt(18, 35, 17, 99)),
        g2_pt(88, 97, 86, 52).sadd(g2_pt(18, 35, 17, 99)) == g2_pt(10, 10, 44, 87),
{
    lemma_g2_add_at(
        (88, 97),
        (86, 52),
        (18, 35),
        (17, 99),
        (32, 47),
        (31, 39),
        58,
        54,
        (58, 15),
        (40, 75),
        (15, 41),
        (10, 10),
        (29, 38),
        (44, 87),
        (-1, 0, -1, -1, 24, 31, 16, -21, 11, 31),
        (-40, 59, -1, -1, -34, 92, -1, -1),
    );
}

proof fn lemma_wide_addition_31()
    ensures
        g2_pt(47, 93, 36, 90).add_defined(g2_pt(18, 35, 17, 99)),
        g2_pt(47, 93, 36, 90).sadd(g2_pt(18, 35, 17, 99)) == g2_pt(19, 15, 25, 15),
{
    lemma_g2_add_at(
        (47, 93),
        (36, 90),
        (18, 35),
        (17, 99),
        (82, 9),
        (72, 43),
        64,
        30,
        (39, 23),
        (62, 15),
        (84, 42),
        (19, 15),
        (61, 4),
        (25, 15),
        (-1, 0, -1, -1, 69, 19, 21, -13, 29, 22),
        (35, 18, 0, -1, 5, 52, 0, -1),
    );
}

proof fn lemma_wide_addition_32()
    ensures
        g2_pt(88, 55, 22, 34).add_defined(g2_pt(18, 35, 17, 99)),
        g2_pt(88, 55, 22, 34).sadd(g2_pt(18, 35, 17, 99)) == g2_pt(19, 15, 76, 86),
{
    lemma_g2_add_at(
        (88, 55),
        (22, 34),
        (18, 35),
        (17, 99),
        (96, 65),
        (31, 81),
        48,
        40,
        (28, 93),
        (77, 42),
        (24, 4),
        (19, 15),
        (98, 19),
        (76, 86),
        (-1, 0, -1, -1, 74, 19, 12, -33, -34, 106),
        (41, 64, -1, -1, 35, 59, 0, -1),
    );
}

proof fn lemma_wide_addition_33()
    ensures
        g2_pt(36, 63, 55, 39).add_defined(g2_pt(18, 35, 17, 99)),
        g2_pt(36, 63, 55, 39).sadd(g2_pt(18, 35, 17, 99)) == g2_pt(10, 10, 57, 14),
{
    lemma_g2_add_at(
        (36, 63),
        (55, 39),
        (18, 35),
        (17, 99),
        (63, 60),
        (83, 73),
        98,
        67,
        (6, 58),
        (29, 75),
        (64, 7),
        (10, 10),
        (11, 53),
        (57, 14),
        (-1, 0, -1, -1, 120, 65, 55, -49, -31, 39),
        (-48, 43, 0, -1, -32, 34, -1, 0),
    );
}

proof fn lemma_wide_addition_34()
    ensures
        g2_pt(61, 3, 63, 78).add_defined(g2_pt(18, 35, 17, 99)),
        g2_pt(61, 3, 63, 78).sadd(g2_pt(18, 35, 17, 99)) == g2_pt(25, 31, 5, 66),
{
    lemma_g2_add_at(
        (61, 3),
        (63, 78),
        (18, 35),
        (17, 99),
        (55, 21),
        (58, 32),
        45,
        9,
        (17, 15),
        (14, 71),
        (3, 69),
        (25, 31),
        (68, 43),
        (5, 66),
        (-1, 0, -1, 0, 43, 4, 5, -3, 6, 11),
        (-48, 19, -1, 0, 24, 21, 0, -1),
    );
}

proof fn lemma_wide_addition_35()
    ensures
        g2_pt(5, 76, 13, 86).add_defined(g2_pt(18, 35, 17, 99)),
        g2_pt(5, 76, 13, 86).sadd(g2_pt(18, 35, 17, 99)) == g2_pt(26, 64, 61, 99),
{
    lemma_g2_add_at(
        (5, 76),
        (13, 86),
        (18, 35),
        (17, 99),
        (4, 13),
        (13, 60),
        32,
        60,
        (73, 36),
        (26, 83),
        (49, 74),
        (26, 64),
        (74, 84),
        (61, 99),
        (0, 0, 0, -1, 37, 19, 7, -36, -2, 10),
        (-62, 42, 0, -1, -16, -15, 0, -1),
    );
}

proof fn lemma_wide_addition_36()
    ensures
        g2_pt(96, 94, 21, 63).add_defined(g2_pt(18, 35, 17, 99)),
        g2_pt(96, 94, 21, 63).sadd(g2_pt(18, 35, 17, 99)) == g2_pt(16, 58, 27, 21),
{
    lemma_g2_add_at(
        (96, 94),
        (21, 63),
        (18, 35),
        (17, 99),
        (97, 36),
        (23, 42),
        71,
        37,
        (43, 62),
        (20, 88),
        (29, 86),
        (16, 58),
        (48, 84),
        (27, 21),
        (-1, 0, -1, -1, 22, 26, 8, -16, 19, 74),
        (-73, 34, -1, -1, -16, 76, 0, 0),
    );
}

proof fn lemma_wide_addition_37()
    ensures
        g2_pt(68, 31, 10, 9).add_defined(g2_pt(18, 35, 17, 99)),
        g2_pt(68, 31, 10, 9).sadd(g2_pt(18, 35, 17, 99)) == g2_pt(80, 18, 84, 89),
{
    lemma_g2_add_at(
        (68, 31),
        (10, 9),
        (18, 35),
        (17, 99),
        (7, 90),
        (51, 4),
        92,
        56,
        (28, 79),
        (55, 43),
        (65, 84),
        (80, 18),
        (94, 98),
        (84, 89),
        (0, 0, -1, 0, 25, 51, 28, -3, -69, 30),
        (11, 46, -1, 0, -13, 1, 0, 0),
    );
}

proof fn lemma_wide_addition_38()
    ensures
        g2_pt(31, 98, 39, 6).add_defined(g2_pt(18, 35, 17, 99)),
        g2_pt(31, 98, 39, 6).sadd(g2_pt(18, 35, 17, 99)) == g2_pt(71, 46, 90, 46),
{
    lemma_g2_add_at(
        (31, 98),
        (39, 6),
        (18, 35),
        (17, 99),
        (79, 93),
        (88, 38),
        98,
        67,
        (38, 80),
        (6, 57),
        (19, 78),
        (71, 46),
        (28, 52),
        (90, 46),
        (-1, 0, -1, -1, 90, 65, 58, -26, -44, 97),
        (-32, 6, -1, -1, -32, -20, -1, 0),
    );
}

proof fn lemma_wide_addition_39()
    ensures
        g2_pt(5, 95, 77, 68).add_defined(g2_pt(18, 35, 17, 99)),
        g2_pt(5, 95, 77, 68).sadd(g2_pt(18, 35, 17, 99)) == g2_pt(55, 2, 42, 26),
{
    lemma_g2_add_at(
        (5, 95),
        (77, 68),
        (18, 35),
        (17, 99),
        (41, 31),
        (13, 41),
        32,
        60,
        (73, 65),
        (69, 80),
        (78, 31),
        (55, 2),
        (18, 94),
        (42, 26),
        (-1, 0, 0, -1, 18, 19, 7, -25, 9, 48),
        (-17, 109, 0, -1, -108, 23, -1, 0),
    );
}

proof fn lemma_wide_addition_40()
    ensures
        g2_pt(83, 3, 54, 52).add_defined(g2_pt(18, 35, 17, 99)),
        g2_pt(83, 3, 54, 52).sadd(g2_pt(18, 35, 17, 99)) == g2_pt(46, 46, 32, 37),
{
    lemma_g2_add_at(
        (83, 3),
        (54, 52),
        (18, 35),
        (17, 99),
        (64, 47),
        (36, 32),
        98,
        67,
        (89, 78),
        (10, 85),
        (46, 84),
        (46, 46),
        (86, 89),
        (32, 37),
        (-1, 0, -1, 0, 22, 65, 23, -22, 20, 90),
        (-71, 16, -1, 0, 39, 26, 0, 0),
    );
}

proof fn lemma_wide_addition_41()
    ensures
        g2_pt(13, 79, 95, 59).add_defined(g2_pt(18, 35, 17, 99)),
        g2_pt(13, 79, 95, 59).sadd(g2_pt(18, 35, 17, 99)) == g2_pt(75, 88, 44, 41),
{
    lemma_g2_add_at(
        (13, 79),
        (95, 59),
        (18, 35),
        (17, 99),
        (23, 40),
        (5, 57),
        42,
        89,
        (41, 78),
        (45, 0),
        (5, 0),
        (75, 88),
        (38, 100),
        (44, 41),
        (-1, 0, 0, -1, 32, 37, 4, -51, -22, 34),
        (20, 0, -1, -2, -28, -5, -1, 0),
    );
}

proof fn lemma_wide_addition_42()
    ensures
        g2_pt(15, 71, 91, 16).add_defined(g2_pt(18, 35, 17, 99)),
        g2_pt(15, 71, 91, 16).sadd(g2_pt(18, 35, 17, 99)) == g2_pt(38, 58, 50, 12),
{
    lemma_g2_add_at(
        (15, 71),
        (91, 16),
        (18, 35),
        (17, 99),
        (27, 83),
        (3, 65),
        93,
        63,
        (88, 46),
        (73, 62),
        (71, 63),
        (38, 58),
        (40, 28),
        (50, 12),
        (-1, 0, 0, -1, 41, 58, 1, -41, -15, 84),
        (14, 89, 0, -1, -25, -5, -1, 0),
    );
}

proof fn lemma_wide_addition_43()
    ensures
        g2_pt(82, 14, 97, 89).add_defined(g2_pt(18, 35, 17, 99)),
        g2_pt(82, 14, 97, 89).sadd(g2_pt(18, 35, 17, 99)) == g2_pt(82, 62, 26, 76),
{
    lemma_g2_add_at(
        (82, 14),
        (97, 89),
        (18, 35),
        (17, 99),
        (21, 10),
        (37, 21),
        93,
        63,
        (8, 91),
        (66, 72),
        (81, 10),
        (82, 62),
        (22, 64),
        (26, 76),
        (-1, 0, -1, 0, 17, 58, 23, -14, -8, 19),
        (-9, 94, -1, -1, 34, -32, -1, -1),
    );
}

proof fn lemma_wide_addition_44()
    ensures
        g2_pt(0, 3, 9, 49).add_defined(g2_pt(84, 54, 48, 91)),
        g2_pt(0, 3, 9, 49).sadd(g2_pt(84, 54, 48, 91)) == g2_pt(36, 59, 1, 38),
{
    lemma_g2_add_at(
        (0, 3),
        (9, 49),
        (84, 54),
        (48, 91),
        (39, 42),
        (84, 51),
        62,
        44,
        (60, 79),
        (32, 46),
        (19, 15),
        (36, 59),
        (10, 87),
        (1, 38),
        (0, 0, 0, 0, 95, 27, 36, -23, -10, 55),
        (-11, 29, -1, -1, 14, -35, 0, 0),
    );
}

proof fn lemma_wide_addition_45()
    ensures
        g2_pt(38, 33, 61, 75).add_defined(g2_pt(84, 54, 48, 91)),
        g2_pt(38, 33, 61, 75).sadd(g2_pt(84, 54, 48, 91)) == g2_pt(99, 37, 28, 7),
{
    lemma_g2_add_at(
        (38, 33),
        (61, 75),
        (84, 54),
        (48, 91),
        (88, 16),
        (46, 21),
        32,
        60,
        (33, 53),
        (36, 41),
        (19, 23),
        (99, 37),
        (89, 82),
        (28, 7),
        (-1, 0, 0, 0, 25, 19, 27, -13, 20, 51),
        (-4, 29, -2, -1, -21, -27, 0, 0),
    );
}

proof fn lemma_wide_addition_46()
    ensures
        g2_pt(19, 91, 88, 44).add_defined(g2_pt(84, 54, 48, 91)),
        g2_pt(19, 91, 88, 44).sadd(g2_pt(84, 54, 48, 91)) == g2_pt(74, 36, 60, 35),
{
    lemma_g2_add_at(
        (19, 91),
        (88, 44),
        (84, 54),
        (48, 91),
        (61, 47),
        (65, 64),
        39,
        57,
        (69, 89),
        (26, 87),
        (76, 80),
        (74, 36),
        (47, 79),
        (60, 35),
        (-1, 0, 0, -1, 82, 22, 36, -37, 0, 85),
        (-69, 44, -1, -1, -62, -34, -1, 0),
    );
}

proof fn lemma_wide_addition_47()
    ensures
        g2_pt(69, 33, 71, 86).add_defined(g2_pt(84, 54, 48, 91)),
        g2_pt(69, 33, 71, 86).sadd(g2_pt(84, 54, 48, 91)) == g2_pt(28, 81, 70, 53),
{
    lemma_g2_add_at(
        (69, 33),
        (71, 86),
        (84, 54),
        (48, 91),
        (78, 5),
        (15, 21),
        60,
        32,
        (76, 35),
        (97, 80),
        (80, 67),
        (28, 81),
        (40, 38),
        (70, 53),
        (-1, 0, 0, 0, 6, 19, 4, -7, 56, 30),
        (29, 153, -1, -1, 77, -14, -1, -1),
    );
}

proof fn lemma_wide_addition_48()
    ensures
        g2_pt(57, 46, 17, 52).add_defined(g2_pt(84, 54, 48, 91)),
        g2_pt(57, 46, 17, 52).sadd(g2_pt(84, 54, 48, 91)) == g2_pt(18, 35, 84, 2),
{
    lemma_g2_add_at(
        (57, 46),
        (17, 52),
        (84, 54),
        (48, 91),
        (31, 39),
        (27, 8),
        86,
        74,
        (79, 14),
        (85, 81),
        (58, 34),
        (18, 35),
        (0, 54),
        (84, 2),
        (0, 0, 0, 0, 7, 63, 19, -6, 18, 34),
        (6, 136, -1, -1, 24, 40, -1, 0),
    );
}

proof fn lemma_wide_addition_49()
    ensures
        g2_pt(81, 47, 93, 16).add_defined(g2_pt(84, 54, 48, 91)),
        g2_pt(81, 47, 93, 16).sadd(g2_pt(84, 54, 48, 91)) == g2_pt(82, 14, 4, 12),
{
    lemma_g2_add_at(
        (81, 47),
        (93, 16),
        (84, 54),
        (48, 91),
        (56, 75),
        (3, 7),
        58,
        54,
        (61, 26),
        (52, 72),
        (45, 14),
        (82, 14),
        (97, 28),
        (4, 12),
        (-1, 0, 0, 0, 0, 31, 1, -4, 14, 59),
        (-25, 74, -2, -1, -25, 16, 0, 0),
    );
}

proof fn lemma_wide_addition_50()
    ensures
        g2_pt(18, 69, 94, 11).add_defined(g2_pt(84, 54, 48, 91)),
        g2_pt(18, 69, 94, 11).sadd(g2_pt(84, 54, 48, 91)) == g2_pt(15, 71, 10, 85),
{
    lemma_g2_add_at(
        (18, 69),
        (94, 11),
        (84, 54),
        (48, 91),
        (55, 80),
        (66, 86),
        36,
        87,
        (86, 93),
        (17, 77),
        (16, 93),
        (15, 71),
        (3, 96),
        (10, 85),
        (-1, 0, 0, -1, 116, 31, 56, -75, -27, 118),
        (-56, 25, -1, -1, 2, 1, -1, 0),
    );
}

proof fn lemma_wide_addition_51()
    ensures
        g2_pt(83, 80, 84, 22).add_defined(g2_pt(84, 54, 48, 91)),
        g2_pt(83, 80, 84, 22).sadd(g2_pt(84, 54, 48, 91)) == g2_pt(13, 79, 6, 42),
{
    lemma_g2_add_at(
        (83, 80),
        (84, 22),
        (84, 54),
        (48, 91),
        (65, 69),
        (1, 75),
        71,
        37,
        (37, 53),
        (61, 39),
        (79, 11),
        (13, 79),
        (90, 64),
        (6, 42),
        (-1, 0, 0, -1, 55, 26, 0, -28, -13, 59),
        (21, 47, -1, -2, 41, 27, 0, 0),
    );
}

proof fn lemma_wide_addition_52()
    ensures
        g2_pt(65, 87, 47, 11).add_defined(g2_pt(84, 54, 48, 91)),
        g2_pt(65, 87, 47, 11).sadd(g2_pt(84, 54, 48, 91)) == g2_pt(83, 3, 47, 49),
{
    lemma_g2_add_at(
        (65, 87),
        (47, 11),
        (84, 54),
        (48, 91),
        (1, 80),
        (19, 68),
        36,
        87,
        (37, 43),
        (31, 74),
        (30, 43),
        (83, 3),
        (94, 60),
        (47, 49),
        (0, 0, 0, -1, 49, 31, 16, -59, -34, 29),
        (-45, 45, -2, -1, -68, 12, 0, 0),
    );
}

proof fn lemma_wide_addition_53()
    ensures
        g2_pt(61, 30, 84, 76).add_defined(g2_pt(84, 54, 48, 91)),
        g2_pt(61, 30, 84, 76).sadd(g2_pt(84, 54, 48, 91)) == g2_pt(5, 95, 24, 33),
{
    lemma_g2_add_at(
        (61, 30),
        (84, 76),
        (84, 54),
        (48, 91),
        (65, 15),
        (23, 24),
        95,
        84,
        (13, 4),
        (78, 51),
        (49, 78),
        (5, 95),
        (7, 8),
        (24, 33),
        (-1, 0, 0, 0, 10, 79, 19, -20, 7, 4),
        (34, 78, -1, -1, 76, -22, -1, -1),
    );
}

proof fn lemma_wide_addition_54()
    ensures
        g2_pt(29, 87, 70, 40).add_defined(g2_pt(84, 54, 48, 91)),
        g2_pt(29, 87, 70, 40).sadd(g2_pt(84, 54, 48, 91)) == g2_pt(31, 98, 62, 95),
{
    lemma_g2_add_at(
        (29, 87),
        (70, 40),
        (84, 54),
        (48, 91),
        (79, 51),
        (55, 68),
        74,
        86,
        (84, 10),
        (66, 24),
        (43, 37),
        (31, 98),
        (31, 34),
        (62, 95),
        (-1, 0, 0, -1, 75, 63, 46, -58, 60, 50),
        (37, 31, -1, -2, 1, -8, -1, -1),
    );
}

proof fn lemma_wide_addition_55()
    ensures
        g2_pt(42, 100, 84, 16).add_defined(g2_pt(84, 54, 48, 91)),
        g2_pt(42, 100, 84, 16).sadd(g2_pt(84, 54, 48, 91)) == g2_pt(96, 94, 80, 38),
{
    lemma_g2_add_at(
        (42, 100),
        (84, 16),
        (84, 54),
        (48, 91),
        (65, 75),
        (42, 55),
        42,
        89,
        (1, 54),
        (55, 50),
        (20, 46),
        (96, 94),
        (63, 54),
        (80, 38),
        (-1, 0, 0, -1, 47, 37, 37, -49, -40, 35),
        (5, 54, -2, -2, -33, -24, -1, 0),
    );
}

proof fn lemma_wide_addition_56()
    ensures
        g2_pt(71, 14, 32, 68).add_defined(g2_pt(84, 54, 48, 91)),
        g2_pt(71, 14, 32, 68).sadd(g2_pt(84, 54, 48, 91)) == g2_pt(5, 76, 88, 15),
{
    lemma_g2_add_at(
        (71, 14),
        (32, 68),
        (84, 54),
        (48, 91),
        (16, 23),
        (13, 40),
        52,
        68,
        (76, 7),
        (45, 42),
        (59, 43),
        (5, 76),
        (19, 83),
        (88, 15),
        (0, 0, 0, 0, 17, 35, 8, -27, 10, 18),
        (2, 37, -1, -1, 55, -1, -1, 0),
    );
}

proof fn lemma_wide_addition_57()
    ensures
        g2_pt(93, 48, 94, 99).add_defined(g2_pt(84, 54, 48, 91)),
        g2_pt(93, 48, 94, 99).sadd(g2_pt(84, 54, 48, 91)) == g2_pt(61, 3, 38, 23),
{
    lemma_g2_add_at(
        (93, 48),
        (94, 99),
        (84, 54),
        (48, 91),
        (55, 93),
        (92, 6),
        16,
        19,
        (31, 88),
        (86, 47),
        (36, 4),
        (61, 3),
        (31, 21),
        (38, 23),
        (-1, -1, -1, 0, 84, 3, 17, -2, -65, 76),
        (51, 80, -2, -1, 6, 53, -1, -1),
    );
}

proof fn lemma_wide_addition_58()
    ensures
        g2_pt(88, 97, 86, 52).add_defined(g2_pt(84, 54, 48, 91)),
        g2_pt(88, 97, 86, 52).sadd(g2_pt(84, 54, 48, 91)) == g2_pt(36, 63, 46, 62),
{
    lemma_g2_add_at(
        (88, 97),
        (86, 52),
        (84, 54),
        (48, 91),
        (63, 39),
        (97, 58),
        47,
        43,
        (30, 31),
        (75, 93),
        (6, 12),
        (36, 63),
        (31, 13),
        (46, 62),
        (-1, 0, -1, -1, 126, 20, 41, -25, 6, 30),
        (-30, 138, -2, -2, 7, 73, -1, -1),
    );
}

proof fn lemma_wide_addition_59()
    ensures
        g2_pt(47, 93, 36, 90).add_defined(g2_pt(84, 54, 48, 91)),
        g2_pt(47, 93, 36, 90).sadd(g2_pt(84, 54, 48, 91)) == g2_pt(88, 55, 79, 67),
{
    lemma_g2_add_at(
        (47, 93),
        (36, 90),
        (84, 54),
        (48, 91),
        (12, 1),
        (37, 62),
        62,
        44,
        (12, 100),
        (44, 0),
        (17, 0),
        (88, 55),
        (14, 56),
        (79, 67),
        (0, 0, 0, -1, 51, 27, 16, -28, 0, 12),
        (19, 0, -2, -2, -18, 16, -1, -1),
    );
}

proof fn lemma_wide_addition_60()
    ensures
        g2_pt(91, 12, 80, 42).add_defined(g2_pt(84, 54, 48, 91)),
        g2_pt(91, 12, 80, 42).sadd(g2_pt(84, 54, 48, 91)) == g2_pt(91, 12, 21, 59),
{
    lemma_g2_add_at(
        (91, 12),
        (80, 42),
        (84, 54),
        (48, 91),
        (69, 49),
        (94, 42),
        96,
        20,
        (62, 69),
        (89, 22),
        (64, 78),
        (91, 12),
        (0, 0),
        (21, 59),
        (-1, 0, -1, 0, 104, 19, 18, -9, 8, 77),
        (73, 38, -2, 0, 0, 0, -1, -1),
    );
}

proof fn lemma_wide_addition_61()
    ensures
        g2_pt(88, 55, 22, 34).add_defined(g2_pt(84, 54, 48, 91)),
        g2_pt(88, 55, 22, 34).sadd(g2_pt(84, 54, 48, 91)) == g2_pt(47, 93, 65, 11),
{
    lemma_g2_add_at(
        (88, 55),
        (22, 34),
        (84, 54),
        (48, 91),
        (26, 57),
        (97, 100),
        17,
        6,
        (77, 6),
        (44, 0),
        (17, 0),
        (47, 93),
        (87, 45),
        (65, 11),
        (0, 0, -1, -1, 192, 1, 5, -6, 16, 45),
        (19, 0, -2, -2, 17, -17, 0, 0),
    );
}

proof fn lemma_wide_addition_62()
    ensures
        g2_pt(36, 63, 55, 39).add_defined(g2_pt(84, 54, 48, 91)),
        g2_pt(36, 63, 55, 39).sadd(g2_pt(84, 54, 48, 91)) == g2_pt(88, 97, 15, 49),
{
    lemma_g2_add_at(
        (36, 63),
        (55, 39),
        (84, 54),
        (48, 91),
        (94, 52),
        (48, 92),
        62,
        44,
        (92, 93),
        (75, 93),
        (6, 12),
        (88, 97),
        (70, 88),
        (15, 49),
        (-1, 0, 0, -1, 106, 27, 20, -41, 37, 133),
        (-30, 138, -2, -2, -8, -74, 0, 0),
    );
}

proof fn lemma_wide_addition_63()
    ensures
        g2_pt(61, 3, 63, 78).add_defined(g2_pt(84, 54, 48, 91)),
        g2_pt(61, 3, 63, 78).sadd(g2_pt(84, 54, 48, 91)) == g2_pt(93, 48, 7, 2),
{
    lemma_g2_add_at(
        (61, 3),
        (63, 78),
        (84, 54),
        (48, 91),
        (86, 13),
        (23, 51),
        100,
        100,
        (78, 51),
        (86, 47),
        (36, 4),
        (93, 48),
        (70, 80),
        (7, 2),
        (-1, 0, 0, 0, 30, 99, 22, -51, 59, 53),
        (51, 80, -2, -1, -7, -54, 0, 0),
    );
}

proof fn lemma_wide_addition_64()
    ensures
        g2_pt(5, 76, 13, 86).add_defined(g2_pt(84, 54, 48, 91)),
        g2_pt(5, 76, 13, 86).sadd(g2_pt(84, 54, 48, 91)) == g2_pt(71, 14, 69, 33),
{
    lemma_g2_add_at(
        (5, 76),
        (13, 86),
        (84, 54),
        (48, 91),
        (35, 5),
        (79, 79),
        59,
        12,
        (39, 62),
        (45, 42),
        (59, 43),
        (71, 14),
        (82, 18),
        (69, 33),
        (0, 0, 0, -1, 123, 7, 9, -10, 10, 23),
        (2, 37, -1, -1, -56, 0, 0, -1),
    );
}

proof fn lemma_wide_addition_65()
    ensures
        g2_pt(96, 94, 21, 63).add_defined(g2_pt(84, 54, 48, 91)),
        g2_pt(96, 94, 21, 63).sadd(g2_pt(84, 54, 48, 91)) == g2_pt(42, 100, 17, 85),
{
    lemma_g2_add_at(
        (96, 94),
        (21, 63),
        (84, 54),
        (48, 91),
        (27, 28),
        (89, 61),
        27,
        15,
        (22, 95),
        (55, 50),
        (20, 46),
        (42, 100),
        (38, 47),
        (17, 85),
        (0, 0, -1, -1, 115, 4, 13, -10, -21, 31),
        (5, 54, -2, -2, 32, 23, 0, -1),
    );
}

proof fn lemma_wide_addition_66()
    ensures
        g2_pt(68, 31, 10, 9).add_defined(g2_pt(84, 54, 48, 91)),
        g2_pt(68, 31, 10, 9).sadd(g2_pt(84, 54, 48, 91)) == g2_pt(4, 46, 98, 65),
{
    lemma_g2_add_at(
        (68, 31),
        (10, 9),
        (84, 54),
        (48, 91),
        (38, 82),
        (16, 23),
        78,
        79,
        (52, 1),
        (76, 60),
        (55, 30),
        (4, 46),
        (7, 74),
        (98, 65),
        (0, 0, 0, 0, 7, 61, 12, -18, 18, 42),
        (21, 90, -1, -1, 57, 26, -1, 0),
    );
}

proof fn lemma_wide_addition_67()
    ensures
        g2_pt(31, 98, 39, 6).add_defined(g2_pt(84, 54, 48, 91)),
        g2_pt(31, 98, 39, 6).sadd(g2_pt(84, 54, 48, 91)) == g2_pt(29, 87, 31, 61),
{
    lemma_g2_add_at(
        (31, 98),
        (39, 6),
        (84, 54),
        (48, 91),
        (9, 85),
        (53, 57),
        99,
        50,
        (24, 79),
        (66, 24),
        (43, 37),
        (29, 87),
        (70, 67),
        (31, 61),
        (0, 0, 0, -1, 59, 49, 26, -29, -65, 27),
        (37, 31, -1, -2, -2, 7, 0, 0),
    );
}

proof fn lemma_wide_addition_68()
    ensures
        g2_pt(5, 95, 77, 68).add_defined(g2_pt(84, 54, 48, 91)),
        g2_pt(5, 95, 77, 68).sadd(g2_pt(84, 54, 48, 91)) == g2_pt(61, 30, 17, 25),
{
    lemma_g2_add_at(
        (5, 95),
        (77, 68),
        (84, 54),
        (48, 91),
        (72, 23),
        (79, 60),
        44,
        62,
        (50, 17),
        (78, 51),
        (49, 78),
        (61, 30),
        (94, 93),
        (17, 25),
        (-1, 0, 0, -1, 97, 27, 48, -37, 31, 23),
        (34, 78, -1, -1, -77, 21, 0, 0),
    );
}

proof fn lemma_wide_addition_69()
    ensures
        g2_pt(83, 3, 54, 52).add_defined(g2_pt(84, 54, 48, 91)),
        g2_pt(83, 3, 54, 52).sadd(g2_pt(84, 54, 48, 91)) == g2_pt(65, 87, 54, 90),
{
    lemma_g2_add_at(
        (83, 3),
        (54, 52),
        (84, 54),
        (48, 91),
        (95, 39),
        (1, 51),
        77,
        21,
        (21, 40),
        (31, 74),
        (30, 43),
        (65, 87),
        (7, 41),
        (54, 90),
        (-1, 0, 0, 0, 25, 16, 0, -11, 4, 45),
        (-45, 45, -2, -1, 67, -13, -1, -1),
    );
}

proof fn lemma_wide_addition_70()
    ensures
        g2_pt(13, 79, 95, 59).add_defined(g2_pt(84, 54, 48, 91)),
        g2_pt(13, 79, 95, 59).sadd(g2_pt(84, 54, 48, 91)) == g2_pt(83, 80, 17, 79),
{
    lemma_g2_add_at(
        (13, 79),
        (95, 59),
        (84, 54),
        (48, 91),
        (54, 32),
        (71, 76),
        10,
        91,
        (98, 53),
        (61, 39),
        (79, 11),
        (83, 80),
        (11, 37),
        (17, 79),
        (-1, 0, 0, -1, 107, 9, 63, -69, 35, 59),
        (21, 47, -1, -2, -42, -28, -1, -1),
    );
}

proof fn lemma_wide_addition_71()
    ensures
        g2_pt(82, 14, 97, 89).add_defined(g2_pt(84, 54, 48, 91)),
        g2_pt(82, 14, 97, 89).sadd(g2_pt(84, 54, 48, 91)) == g2_pt(81, 47, 8, 85),
{
    lemma_g2_add_at(
        (82, 14),
        (97, 89),
        (84, 54),
        (48, 91),
        (52, 2),
        (2, 40),
        89,
        42,
        (84, 37),
        (52, 72),
        (45, 14),
        (81, 47),
        (4, 73),
        (8, 85),
        (-1, 0, 0, 0, 15, 37, 0, -17, 42, 20),
        (-25, 74, -2, -1, 24, -17, -1, -1),
    );
}

proof fn lemma_wide_addition_72()
    ensures
        g2_pt(18, 35, 17, 99).add_defined(g2_pt(84, 54, 48, 91)),
        g2_pt(18, 35, 17, 99).sadd(g2_pt(84, 54, 48, 91)) == g2_pt(57, 46, 84, 49),
{
    lemma_g2_add_at(
        (18, 35),
        (17, 99),
        (84, 54),
        (48, 91),
        (31, 93),
        (66, 19),
        71,
        37,
        (18, 4),
        (85, 81),
        (58, 34),
        (57, 46),
        (0, 47),
        (84, 49),
        (0, -1, 0, 0, 46, 26, 24, -7, 1, 17),
        (6, 136, -1, -1, -24, -41, -1, -1),
    );
}

proof fn lemma_wide_addition_73()
    ensures
        g2_pt(28, 81, 31, 48).add_defined(g2_pt(84, 54, 48, 91)),
        g2_pt(28, 81, 31, 48).sadd(g2_pt(84, 54, 48, 91)) == g2_pt(69, 33, 30, 15),
{
    lemma_g2_add_at(
        (28, 81),
        (31, 48),
        (84, 54),
        (48, 91),
        (17, 43),
        (56, 74),
        27,
        15,
        (32, 1),
        (97, 80),
        (80, 67),
        (69, 33),
        (61, 63),
        (30, 15),
        (0, 0, 0, -1, 85, 4, 8, -11, 4, 13),
        (29, 153, -1, -1, -78, 13, 0, 0),
    );
}

proof fn lemma_wide_addition_74()
    ensures
        g2_pt(74, 36, 41, 66).add_defined(g2_pt(84, 54, 48, 91)),
        g2_pt(74, 36, 41, 66).sadd(g2_pt(84, 54, 48, 91)) == g2_pt(19, 91, 13, 57),
{
    lemma_g2_add_at(
        (74, 36),
        (41, 66),
        (84, 54),
        (48, 91),
        (7, 25),
        (10, 18),
        20,
        96,
        (51, 90),
        (26, 87),
        (76, 80),
        (19, 91),
        (54, 22),
        (13, 57),
        (0, 0, 0, 0, 4, 19, 9, -18, -19, 18),
        (-69, 44, -1, -1, 61, 33, 0, -1),
    );
}

proof fn lemma_wide_addition_75()
    ensures
        g2_pt(99, 37, 73, 94).add_defined(g2_pt(84, 54, 48, 91)),
        g2_pt(99, 37, 73, 94).sadd(g2_pt(84, 54, 48, 91)) == g2_pt(38, 33, 40, 26),
{
    lemma_g2_add_at(
        (99, 37),
        (73, 94),
        (84, 54),
        (48, 91),
        (76, 98),
        (86, 17),
        9,
        45,
        (32, 43),
        (36, 41),
        (19, 23),
        (38, 33),
        (12, 19),
        (40, 26),
        (-1, -1, -1, 0, 76, 4, 38, -8, -18, 63),
        (-4, 29, -2, -1, 20, 26, -1, -1),
    );
}

/// `17 H` by double-and-add: defined, and mapped by `i -> 10` to `17 P`.
#[verifier::spinoff_prover]
proof fn lemma_wide_17()
    ensures
        G2Point::sgenerator().mul_defined(17),
        G2Point::sgenerator().smul(17) == g2_pt(88, 97, 86, 52),
        sproject(g2_pt(88, 97, 86, 52)) == col_point(17),
{
    lemma_wide_addition_0();
    lemma_double_0();
    lemma_double_1();
    lemma_double_2();
    lemma_double_3();
    lemma_double_4();
    lemma_double_5();
    lemma_double_6();
    lemma_cycle_steps(g2_pt(88, 97, 86, 52), g2_pt(31, 98, 39, 6), 57);
    G2Point::lemma_smul_steps_zero(g2_pt(88, 97, 86, 52), g2_pt(31, 98, 39, 6), 57);
    assert(G2Point::mul_steps_defined(g2_pt(88, 97, 86, 52), g2_pt(84, 54, 48, 91), 0, 58));
    assert(G2Point::mul_steps_defined(g2_pt(88, 97, 86, 52), g2_pt(18, 35, 17, 99), 0, 59));
    assert(G2Point::mul_steps_defined(g2_pt(0, 3, 9, 49), g2_pt(93, 48, 94, 99), 1, 60));
    assert(G2Point::mul_steps_defined(g2_pt(0, 3, 9, 49), g2_pt(18, 69, 94, 11), 2, 61));
    assert(G2Point::mul_steps_defined(g2_pt(0, 3, 9, 49), g2_pt(5, 72, 16, 44), 4, 62));
    assert(G2Point::mul_steps_defined(g2_pt(0, 3, 9, 49), g2_pt(38, 33, 61, 75), 8, 63));
    assert(G2Point::mul_steps_defined(G2Point::Infinity, g2_pt(0, 3, 9, 49), 17, 64));
    assert(G2Point::smul_steps(G2Point::Infinity, g2_pt(0, 3, 9, 49), 17, 64) == G2Point::smul_steps(g2_pt(0, 3, 9, 49), g2_pt(38, 33, 61, 75), 8, 63));
    assert(G2Point::smul_steps(g2_pt(0, 3, 9, 49), g2_pt(38, 33, 61, 75), 8, 63) == G2Point::smul_steps(g2_pt(0, 3, 9, 49), g2_pt(5, 72, 16, 44), 4, 62));
    assert(G2Point::smul_steps(g2_pt(0, 3, 9, 49), g2_pt(5, 72, 16, 44), 4, 62) == G2Point::smul_steps(g2_pt(0, 3, 9, 49), g2_pt(18, 69, 94, 11), 2, 61));
    assert(G2Point::smul_steps(g2_pt(0, 3, 9, 49), g2_pt(18, 69, 94, 11), 2, 61) == G2Point::smul_steps(g2_pt(0, 3, 9, 49), g2_pt(93, 48, 94, 99), 1, 60));
    assert(G2Point::smul_steps(g2_pt(0, 3, 9, 49), g2_pt(93, 48, 94, 99), 1, 60) == G2Point::smul_steps(g2_pt(88, 97, 86, 52), g2_pt(18, 35, 17, 99), 0, 59));
    assert(G2Point::smul_steps(g2_pt(88, 97, 86, 52), g2_pt(18, 35, 17, 99), 0, 59) == G2Point::smul_steps(g2_pt(88, 97, 86, 52), g2_pt(84, 54, 48, 91), 0, 58));
    assert(G2Point::smul_steps(g2_pt(88, 97, 86, 52), g2_pt(84, 54, 48, 91), 0, 58) == G2Point::smul_steps(g2_pt(88, 97, 86, 52), g2_pt(31, 98, 39, 6), 0, 57));
    crate::pairing_values::lemma_distort_at(88, 97, 86, 52, 48, 10, 0, 6);
    assert(col_point(17) == crate::pairing_values::g1p(48, 0));
}

/// `18 H` by double-and-add: defined, and mapped by `i -> 10` to `18 P`.
#[verifier::spinoff_prover]
proof fn lemma_wide_18()
    ensures
        G2Point::sgenerator().mul_defined(18),
        G2Point::sgenerator().smul(18) == g2_pt(47, 93, 36, 90),
        sproject(g2_pt(47, 93, 36, 90)) == col_point(18),
{
    lemma_wide_addition_1();
    lemma_double_0();
    lemma_double_1();
    lemma_double_2();
    lemma_double_3();
    lemma_double_4();
    lemma_double_5();
    lemma_double_6();
    lemma_cycle_steps(g2_pt(47, 93, 36, 90), g2_pt(31, 98, 39, 6), 57);
    G2Point::lemma_smul_steps_zero(g2_pt(47, 93, 36, 90), g2_pt(31, 98, 39, 6), 57);
    assert(G2Point::mul_steps_defined(g2_pt(47, 93, 36, 90), g2_pt(84, 54, 48, 91), 0, 58));
    assert(G2Point::mul_steps_defined(g2_pt(47, 93, 36, 90), g2_pt(18, 35, 17, 99), 0, 59));
    assert(G2Point::mul_steps_defined(g2_pt(38, 33, 61, 75), g2_pt(93, 48, 94, 99), 1, 60));
    assert(G2Point::mul_steps_defined(g2_pt(38, 33, 61, 75), g2_pt(18, 69, 94, 11), 2, 61));
    assert(G2Point::mul_steps_defined(g2_pt(38, 33, 61, 75), g2_pt(5, 72, 16, 44), 4, 62));
    assert(G2Point::mul_steps_defined(G2Point::Infinity, g2_pt(38, 33, 61, 75), 9, 63));
    assert(G2Point::mul_steps_defined(G2Point::Infinity, g2_pt(0, 3, 9, 49), 18, 64));
    assert(G2Point::smul_steps(G2Point::Infinity, g2_pt(0, 3, 9, 49), 18, 64) == G2Point::smul_steps(G2Point::Infinity, g2_pt(38, 33, 61, 75), 9, 63));
    assert(G2Point::smul_steps(G2Point::Infinity, g2_pt(38, 33, 61, 75), 9, 63) == G2Point::smul_steps(g2_pt(38, 33, 61, 75), g2_pt(5, 72, 16, 44), 4, 62));
    assert(G2Point::smul_steps(g2_pt(38, 33, 61, 75), g2_pt(5, 72, 16, 44), 4, 62) == G2Point::smul_steps(g2_pt(38, 33, 61, 75), g2_pt(18, 69, 94, 11), 2, 61));
    assert(G2Point::smul_steps(g2_pt(38, 33, 61, 75), g2_pt(18, 69, 94, 11), 2, 61) == G2Point::smul_steps(g2_pt(38, 33, 61, 75), g2_pt(93, 48, 94, 99), 1, 60));
    assert(G2Point::smul_steps(g2_pt(38, 33, 61, 75), g2_pt(93, 48, 94, 99), 1, 60) == G2Point::smul_steps(g2_pt(47, 93, 36, 90), g2_pt(18, 35, 17, 99), 0, 59));
    assert(G2Point::smul_steps(g2_pt(47, 93, 36, 90), g2_pt(18, 35, 17, 99), 0, 59) == G2Point::smul_steps(g2_pt(47, 93, 36, 90), g2_pt(84, 54, 48, 91), 0, 58));
    assert(G2Point::smul_steps(g2_pt(47, 93, 36, 90), g2_pt(84, 54, 48, 91), 0, 58) == G2Point::smul_steps(g2_pt(47, 93, 36, 90), g2_pt(31, 98, 39, 6), 0, 57));
    crate::pairing_values::lemma_distort_at(47, 93, 36, 90, 68, 9, 27, 9);
    assert(col_point(18) == crate::pairing_values::g1p(68, 27));
}

/// `19 H` by double-and-add: defined, and mapped by `i -> 10` to `19 P`.
#[verifier::spinoff_prover]
proof fn lemma_wide_19()
    ensures
        G2Point::sgenerator().mul_defined(19),
        G2Point::sgenerator().smul(19) == g2_pt(91, 12, 80, 42),
        sproject(g2_pt(91, 12, 80, 42)) == col_point(19),
{
    lemma_addition_0();
    lemma_wide_addition_2();
    lemma_double_0();
    lemma_double_1();
    lemma_double_2();
    lemma_double_3();
    lemma_double_4();
    lemma_double_5();
    lemma_double_6();
    lemma_cycle_steps(g2_pt(91, 12, 80, 42), g2_pt(31, 98, 39, 6), 57);
    G2Point::lemma_smul_steps_zero(g2_pt(91, 12, 80, 42), g2_pt(31, 98, 39, 6), 57);
    assert(G2Point::mul_steps_defined(g2_pt(91, 12, 80, 42), g2_pt(84, 54, 48, 91), 0, 58));
    assert(G2Point::mul_steps_defined(g2_pt(91, 12, 80, 42), g2_pt(18, 35, 17, 99), 0, 59));
    assert(G2Point::mul_steps_defined(g2_pt(19, 91, 88, 44), g2_pt(93, 48, 94, 99), 1, 60));
    assert(G2Point::mul_steps_defined(g2_pt(19, 91, 88, 44), g2_pt(18, 69, 94, 11), 2, 61));
    assert(G2Point::mul_steps_defined(g2_pt(19, 91, 88, 44), g2_pt(5, 72, 16, 44), 4, 62));
    assert(G2Point::mul_steps_defined(g2_pt(0, 3, 9, 49), g2_pt(38, 33, 61, 75), 9, 63));
    assert(G2Point::mul_steps_defined(G2Point::Infinity, g2_pt(0, 3, 9, 49), 19, 64));
    assert(G2Point::smul_steps(G2Point::Infinity, g2_pt(0, 3, 9, 49), 19, 64) == G2Point::smul_steps(g2_pt(0, 3, 9, 49), g2_pt(38, 33, 61, 75), 9, 63));
    assert(G2Point::smul_steps(g2_pt(0, 3, 9, 49), g2_pt(38, 33, 61, 75), 9, 63) == G2Point::smul_steps(g2_pt(19, 91, 88, 44), g2_pt(5, 72, 16, 44), 4, 62));
    assert(G2Point::smul_steps(g2_pt(19, 91, 88, 44), g2_pt(5, 72, 16, 44), 4, 62) == G2Point::smul_steps(g2_pt(19, 91, 88, 44), g2_pt(18, 69, 94, 11), 2, 61));
    assert(G2Point::smul_steps(g2_pt(19, 91, 88, 44), g2_pt(18, 69, 94, 11), 2, 61) == G2Point::smul_steps(g2_pt(19, 91, 88, 44), g2_pt(93, 48, 94, 99), 1, 60));
    assert(G2Point::smul_steps(g2_pt(19, 91, 88, 44), g2_pt(93, 48, 94, 99), 1, 60) == G2Point::smul_steps(g2_pt(91, 12, 80, 42), g2_pt(18, 35, 17, 99), 0, 59));
    assert(G2Point::smul_steps(g2_pt(91, 12, 80, 42), g2_pt(18, 35, 17, 99), 0, 59) == G2Point::smul_steps(g2_pt(91, 12, 80, 42), g2_pt(84, 54, 48, 91), 0, 58));
    assert(G2Point::smul_steps(g2_pt(91, 12, 80, 42), g2_pt(84, 54, 48, 91), 0, 58) == G2Point::smul_steps(g2_pt(91, 12, 80, 42), g2_pt(31, 98, 39, 6), 0, 57));
    crate::pairing_values::lemma_distort_at(91, 12, 80, 42, 9, 2, 96, 4);
    assert(col_point(19) == crate::pairing_values::g1p(9, 96));
}

/// `20 H` by double-and-add: defined, and mapped by `i -> 10` to `20 P`.
#[verifier::spinoff_prover]
proof fn lemma_wide_20()
    ensures
        G2Point::sgenerator().mul_defined(20),
        G2Point::sgenerator().smul(20) == g2_pt(88, 55, 22, 34),
        sproject(g2_pt(88, 55, 22, 34)) == col_point(20),
{
    lemma_wide_addition_3();
    lemma_double_0();
    lemma_double_1();
    lemma_double_2();
    lemma_double_3();
    lemma_double_4();
    lemma_double_5();
    lemma_double_6();
    lemma_cycle_steps(g2_pt(88, 55, 22, 34), g2_pt(31, 98, 39, 6), 57);
    G2Point::lemma_smul_steps_zero(g2_pt(88, 55, 22, 34), g2_pt(31, 98, 39, 6), 57);
    assert(G2Point::mul_steps_defined(g2_pt(88, 55, 22, 34), g2_pt(84, 54, 48, 91), 0, 58));
    assert(G2Point::mul_steps_defined(g2_pt(88, 55, 22, 34), g2_pt(18, 35, 17, 99), 0, 59));
    assert(G2Point::mul_steps_defined(g2_pt(5, 72, 16, 44), g2_pt(93, 48, 94, 99), 1, 60));
    assert(G2Point::mul_steps_defined(g2_pt(5, 72, 16, 44), g2_pt(18, 69, 94, 11), 2, 61));
    assert(G2Point::mul_steps_defined(G2Point::Infinity, g2_pt(5, 72, 16, 44), 5, 62));
    assert(G2Point::mul_steps_defined(G2Point::Infinity, g2_pt(38, 33, 61, 75), 10, 63));
    assert(G2Point::mul_steps_defined(G2Point::Infinity, g2_pt(0, 3, 9, 49), 20, 64));
    assert(G2Point::smul_steps(G2Point::Infinity, g2_pt(0, 3, 9, 49), 20, 64) == G2Point::smul_steps(G2Point::Infinity, g2_pt(38, 33, 61, 75), 10, 63));
    assert(G2Point::smul_steps(G2Point::Infinity, g2_pt(38, 33, 61, 75), 10, 63) == G2Point::smul_steps(G2Point::Infinity, g2_pt(5, 72, 16, 44), 5, 62));
    assert(G2Point::smul_steps(G2Point::Infinity, g2_pt(5, 72, 16, 44), 5, 62) == G2Point::smul_steps(g2_pt(5, 72, 16, 44), g2_pt(18, 69, 94, 11), 2, 61));
    assert(G2Point::smul_steps(g2_pt(5, 72, 16, 44), g2_pt(18, 69, 94, 11), 2, 61) == G2Point::smul_steps(g2_pt(5, 72, 16, 44), g2_pt(93, 48, 94, 99), 1, 60));
    assert(G2Point::smul_steps(g2_pt(5, 72, 16, 44), g2_pt(93, 48, 94, 99), 1, 60) == G2Point::smul_steps(g2_pt(88, 55, 22, 34), g2_pt(18, 35, 17, 99), 0, 59));
    assert(G2Point::smul_steps(g2_pt(88, 55, 22, 34), g2_pt(18, 35, 17, 99), 0, 59) == G2Point::smul_steps(g2_pt(88, 55, 22, 34), g2_pt(84, 54, 48, 91), 0, 58));
    assert(G2Point::smul_steps(g2_pt(88, 55, 22, 34), g2_pt(84, 54, 48, 91), 0, 58) == G2Point::smul_steps(g2_pt(88, 55, 22, 34), g2_pt(31, 98, 39, 6), 0, 57));
    crate::pairing_values::lemma_distort_at(88, 55, 22, 34, 32, 6, 59, 3);
    assert(col_point(20) == crate::pairing_values::g1p(32, 59));
}

/// `21 H` by double-and-add: defined, and mapped by `i -> 10` to `21 P`.
#[verifier::spinoff_prover]
proof fn lemma_wide_21()
    ensures
        G2Point::sgenerator().mul_defined(21),
        G2Point::sgenerator().smul(21) == g2_pt(36, 63, 55, 39),
        sproject(g2_pt(36, 63, 55, 39)) == col_point(21),
{
    lemma_addition_1();
    lemma_wide_addition_4();
    lemma_double_0();
    lemma_double_1();
    lemma_double_2();
    lemma_double_3();
    lemma_double_4();
    lemma_double_5();
    lemma_double_6();
    lemma_cycle_steps(g2_pt(36, 63, 55, 39), g2_pt(31, 98, 39, 6), 57);
    G2Point::lemma_smul_steps_zero(g2_pt(36, 63, 55, 39), g2_pt(31, 98, 39, 6), 57);
    assert(G2Point::mul_steps_defined(g2_pt(36, 63, 55, 39), g2_pt(84, 54, 48, 91), 0, 58));
    assert(G2Point::mul_steps_defined(g2_pt(36, 63, 55, 39), g2_pt(18, 35, 17, 99), 0, 59));
    assert(G2Point::mul_steps_defined(g2_pt(69, 33, 71, 86), g2_pt(93, 48, 94, 99), 1, 60));
    assert(G2Point::mul_steps_defined(g2_pt(69, 33, 71, 86), g2_pt(18, 69, 94, 11), 2, 61));
    assert(G2Point::mul_steps_defined(g2_pt(0, 3, 9, 49), g2_pt(5, 72, 16, 44), 5, 62));
    assert(G2Point::mul_steps_defined(g2_pt(0, 3, 9, 49), g2_pt(38, 33, 61, 75), 10, 63));
    assert(G2Point::mul_steps_defined(G2Point::Infinity, g2_pt(0, 3, 9, 49), 21, 64));
    assert(G2Point::smul_steps(G2Point::Infinity, g2_pt(0, 3, 9, 49), 21, 64) == G2Point::smul_steps(g2_pt(0, 3, 9, 49), g2_pt(38, 33, 61, 75), 10, 63));
    assert(G2Point::smul_steps(g2_pt(0, 3, 9, 49), g2_pt(38, 33, 61, 75), 10, 63) == G2Point::smul_steps(g2_pt(0, 3, 9, 49), g2_pt(5, 72, 16, 44), 5, 62));
    assert(G2Point::smul_steps(g2_pt(0, 3, 9, 49), g2_pt(5, 72, 16, 44), 5, 62) == G2Point::smul_steps(g2_pt(69, 33, 71, 86), g2_pt(18, 69, 94, 11), 2, 61));
    assert(G2Point::smul_steps(g2_pt(69, 33, 71, 86), g2_pt(18, 69, 94, 11), 2, 61) == G2Point::smul_steps(g2_pt(69, 33, 71, 86), g2_pt(93, 48, 94, 99), 1, 60));
    assert(G2Point::smul_steps(g2_pt(69, 33, 71, 86), g2_pt(93, 48, 94, 99), 1, 60) == G2Point::smul_steps(g2_pt(36, 63, 55, 39), g2_pt(18, 35, 17, 99), 0, 59));
    assert(G2Point::smul_steps(g2_pt(36, 63, 55, 39), g2_pt(18, 35, 17, 99), 0, 59) == G2Point::smul_steps(g2_pt(36, 63, 55, 39), g2_pt(84, 54, 48, 91), 0, 58));
    assert(G2Point::smul_steps(g2_pt(36, 63, 55, 39), g2_pt(84, 54, 48, 91), 0, 58) == G2Point::smul_steps(g2_pt(36, 63, 55, 39), g2_pt(31, 98, 39, 6), 0, 57));
    crate::pairing_values::lemma_distort_at(36, 63, 55, 39, 60, 6, 41, 4);
    assert(col_point(21) == crate::pairing_values::g1p(60, 41));
}

/// `22 H` by double-and-add: defined, and mapped by `i -> 10` to `22 P`.
#[verifier::spinoff_prover]
proof fn lemma_wide_22()
    ensures
        G2Point::sgenerator().mul_defined(22),
        G2Point::sgenerator().smul(22) == g2_pt(61, 3, 63, 78),
        sproject(g2_pt(61, 3, 63, 78)) == col_point(22),
{
    lemma_addition_2();
    lemma_wide_addition_5();
    lemma_double_0();
    lemma_double_1();
    lemma_double_2();
    lemma_double_3();
    lemma_double_4();
    lemma_double_5();
    lemma_double_6();
    lemma_cycle_steps(g2_pt(61, 3, 63, 78), g2_pt(31, 98, 39, 6), 57);
    G2Point::lemma_smul_steps_zero(g2_pt(61, 3, 63, 78), g2_pt(31, 98, 39, 6), 57);
    assert(G2Point::mul_steps_defined(g2_pt(61, 3, 63, 78), g2_pt(84, 54, 48, 91), 0, 58));
    assert(G2Point::mul_steps_defined(g2_pt(61, 3, 63, 78), g2_pt(18, 35, 17, 99), 0, 59));
    assert(G2Point::mul_steps_defined(g2_pt(57, 46, 17, 52), g2_pt(93, 48, 94, 99), 1, 60));
    assert(G2Point::mul_steps_defined(g2_pt(57, 46, 17, 52), g2_pt(18, 69, 94, 11), 2, 61));
    assert(G2Point::mul_steps_defined(g2_pt(38, 33, 61, 75), g2_pt(5, 72, 16, 44), 5, 62));
    assert(G2Point::mul_steps_defined(G2Point::Infinity, g2_pt(38, 33, 61, 75), 11, 63));
    assert(G2Point::mul_steps_defined(G2Point::Infinity, g2_pt(0, 3, 9, 49), 22, 64));
    assert(G2Point::smul_steps(G2Point::Infinity, g2_pt(0, 3, 9, 49), 22, 64) == G2Point::smul_steps(G2Point::Infinity, g2_pt(38, 33, 61, 75), 11, 63));
    assert(G2Point::smul_steps(G2Point::Infinity, g2_pt(38, 33, 61, 75), 11, 63) == G2Point::smul_steps(g2_pt(38, 33, 61, 75), g2_pt(5, 72, 16, 44), 5, 62));
    assert(G2Point::smul_steps(g2_pt(38, 33, 61, 75), g2_pt(5, 72, 16, 44), 5, 62) == G2Point::smul_steps(g2_pt(57, 46, 17, 52), g2_pt(18, 69, 94, 11), 2, 61));
    assert(G2Point::smul_steps(g2_pt(57, 46, 17, 52), g2_pt(18, 69, 94, 11), 2, 61) == G2Point::smul_steps(g2_pt(57, 46, 17, 52), g2_pt(93, 48, 94, 99), 1, 60));
    assert(G2Point::smul_steps(g2_pt(57, 46, 17, 52), g2_pt(93, 48, 94, 99), 1, 60) == G2Point::smul_steps(g2_pt(61, 3, 63, 78), g2_pt(18, 35, 17, 99), 0, 59));
    assert(G2Point::smul_steps(g2_pt(61, 3, 63, 78), g2_pt(18, 35, 17, 99), 0, 59) == G2Point::smul_steps(g2_pt(61, 3, 63, 78), g2_pt(84, 54, 48, 91), 0, 58));
    assert(G2Point::smul_steps(g2_pt(61, 3, 63, 78), g2_pt(84, 54, 48, 91), 0, 58) == G2Point::smul_steps(g2_pt(61, 3, 63, 78), g2_pt(31, 98, 39, 6), 0, 57));
    crate::pairing_values::lemma_distort_at(61, 3, 63, 78, 91, 0, 35, 8);
    assert(col_point(22) == crate::pairing_values::g1p(91, 35));
}

/// `23 H` by double-and-add: defined, and mapped by `i -> 10` to `23 P`.
#[verifier::spinoff_prover]
proof fn lemma_wide_23()
    ensures
        G2Point::sgenerator().mul_defined(23),
        G2Point::sgenerator().smul(23) == g2_pt(5, 76, 13, 86),
        sproject(g2_pt(5, 76, 13, 86)) == col_point(23),
{
    lemma_addition_0();
    lemma_addition_3();
    lemma_wide_addition_6();
    lemma_double_0();
    lemma_double_1();
    lemma_double_2();
    lemma_double_3();
    lemma_double_4();
    lemma_double_5();
    lemma_double_6();
    lemma_cycle_steps(g2_pt(5, 76, 13, 86), g2_pt(31, 98, 39, 6), 57);
    G2Point::lemma_smul_steps_zero(g2_pt(5, 76, 13, 86), g2_pt(31, 98, 39, 6), 57);
    assert(G2Point::mul_steps_defined(g2_pt(5, 76, 13, 86), g2_pt(84, 54, 48, 91), 0, 58));
    assert(G2Point::mul_steps_defined(g2_pt(5, 76, 13, 86), g2_pt(18, 35, 17, 99), 0, 59));
    assert(G2Point::mul_steps_defined(g2_pt(81, 47, 93, 16), g2_pt(93, 48, 94, 99), 1, 60));
    assert(G2Point::mul_steps_defined(g2_pt(81, 47, 93, 16), g2_pt(18, 69, 94, 11), 2, 61));
    assert(G2Point::mul_steps_defined(g2_pt(19, 91, 88, 44), g2_pt(5, 72, 16, 44), 5, 62));
    assert(G2Point::mul_steps_defined(g2_pt(0, 3, 9, 49), g2_pt(38, 33, 61, 75), 11, 63));
    assert(G2Point::mul_steps_defined(G2Point::Infinity, g2_pt(0, 3, 9, 49), 23, 64));
    assert(G2Point::smul_steps(G2Point::Infinity, g2_pt(0, 3, 9, 49), 23, 64) == G2Point::smul_steps(g2_pt(0, 3, 9, 49), g2_pt(38, 33, 61, 75), 11, 63));
    assert(G2Point::smul_steps(g2_pt(0, 3, 9, 49), g2_pt(38, 33, 61, 75), 11, 63) == G2Point::smul_steps(g2_pt(19, 91, 88, 44), g2_pt(5, 72, 16, 44), 5, 62));
    assert(G2Point::smul_steps(g2_pt(19, 91, 88, 44), g2_pt(5, 72, 16, 44), 5, 62) == G2Point::smul_steps(g2_pt(81, 47, 93, 16), g2_pt(18, 69, 94, 11), 2, 61));
    assert(G2Point::smul_steps(g2_pt(81, 47, 93, 16), g2_pt(18, 69, 94, 11), 2, 61) == G2Point::smul_steps(g2_pt(81, 47, 93, 16), g2_pt(93, 48, 94, 99), 1, 60));
    assert(G2Point::smul_steps(g2_pt(81, 47, 93, 16), g2_pt(93, 48, 94, 99), 1, 60) == G2Point::smul_steps(g2_pt(5, 76, 13, 86), g2_pt(18, 35, 17, 99), 0, 59));
    assert(G2Point::smul_steps(g2_pt(5, 76, 13, 86), g2_pt(18, 35, 17, 99), 0, 59) == G2Point::smul_steps(g2_pt(5, 76, 13, 86), g2_pt(84, 54, 48, 91), 0, 58));
    assert(G2Point::smul_steps(g2_pt(5, 76, 13, 86), g2_pt(84, 54, 48, 91), 0, 58) == G2Point::smul_steps(g2_pt(5, 76, 13, 86), g2_pt(31, 98, 39, 6), 0, 57));
    crate::pairing_values::lemma_distort_at(5, 76, 13, 86, 58, 7, 65, 8);
    assert(col_point(23) == crate::pairing_values::g1p(58, 65));
}

/// `24 H` by double-and-add: defined, and mapped by `i -> 10` to `24 P`.
#[verifier::spinoff_prover]
proof fn lemma_wide_24()
    ensures
        G2Point::sgenerator().mul_defined(24),
        G2Point::sgenerator().smul(24) == g2_pt(96, 94, 21, 63),
        sproject(g2_pt(96, 94, 21, 63)) == col_point(24),
{
    lemma_wide_addition_7();
    lemma_double_0();
    lemma_double_1();
    lemma_double_2();
    lemma_double_3();
    lemma_double_4();
    lemma_double_5();
    lemma_double_6();
    lemma_cycle_steps(g2_pt(96, 94, 21, 63), g2_pt(31, 98, 39, 6), 57);
    G2Point::lemma_smul_steps_zero(g2_pt(96, 94, 21, 63), g2_pt(31, 98, 39, 6), 57);
    assert(G2Point::mul_steps_defined(g2_pt(96, 94, 21, 63), g2_pt(84, 54, 48, 91), 0, 58));
    assert(G2Point::mul_steps_defined(g2_pt(96, 94, 21, 63), g2_pt(18, 35, 17, 99), 0, 59));
    assert(G2Point::mul_steps_defined(g2_pt(18, 69, 94, 11), g2_pt(93, 48, 94, 99), 1, 60));
    assert(G2Point::mul_steps_defined(G2Point::Infinity, g2_pt(18, 69, 94, 11), 3, 61));
    assert(G2Point::mul_steps_defined(G2Point::Infinity, g2_pt(5, 72, 16, 44), 6, 62));
    assert(G2Point::mul_steps_defined(G2Point::Infinity, g2_pt(38, 33, 61, 75), 12, 63));
    assert(G2Point::mul_steps_defined(G2Point::Infinity, g2_pt(0, 3, 9, 49), 24, 64));
    assert(G2Point::smul_steps(G2Point::Infinity, g2_pt(0, 3, 9, 49), 24, 64) == G2Point::smul_steps(G2Point::Infinity, g2_pt(38, 33, 61, 75), 12, 63));
    assert(G2Point::smul_steps(G2Point::Infinity, g2_pt(38, 33, 61, 75), 12, 63) == G2Point::smul_steps(G2Point::Infinity, g2_pt(5, 72, 16, 44), 6, 62));
    assert(G2Point::smul_steps(G2Point::Infinity, g2_pt(5, 72, 16, 44), 6, 62) == G2Point::smul_steps(G2Point::Infinity, g2_pt(18, 69, 94, 11), 3, 61));
    assert(G2Point::smul_steps(G2Point::Infinity, g2_pt(18, 69, 94, 11), 3, 61) == G2Point::smul_steps(g2_pt(18, 69, 94, 11), g2_pt(93, 48, 94, 99), 1, 60));
    assert(G2Point::smul_steps(g2_pt(18, 69, 94, 11), g2_pt(93, 48, 94, 99), 1, 60) == G2Point::smul_steps(g2_pt(96, 94, 21, 63), g2_pt(18, 35, 17, 99), 0, 59));
    assert(G2Point::smul_steps(g2_pt(96, 94, 21, 63), g2_pt(18, 35, 17, 99), 0, 59) == G2Point::smul_steps(g2_pt(96, 94, 21, 63), g2_pt(84, 54, 48, 91), 0, 58));
    assert(G2Point::smul_steps(g2_pt(96, 94, 21, 63), g2_pt(84, 54, 48, 91), 0, 58) == G2Point::smul_steps(g2_pt(96, 94, 21, 63), g2_pt(31, 98, 39, 6), 0, 57));
    crate::pairing_values::lemma_distort_at(96, 94, 21, 63, 26, 10, 45, 6);
    assert(col_point(24) == crate::pairing_values::g1p(26, 45));
}

/// `25 H` by double-and-add: defined, and mapped by `i -> 10` to `25 P`.
#[verifier::spinoff_prover]
proof fn lemma_wide_25()
    ensures
        G2Point::sgenerator().mul_defined(25),
        G2Point::sgenerator().smul(25) == g2_pt(68, 31, 10, 9),
        sproject(g2_pt(68, 31, 10, 9)) == col_point(25),
{
    lemma_addition_4();
    lemma_wide_addition_8();
    lemma_double_0();
    lemma_double_1();
    lemma_double_2();
    lemma_double_3();
    lemma_double_4();
    lemma_double_5();
    lemma_double_6();
    lemma_cycle_steps(g2_pt(68, 31, 10, 9), g2_pt(31, 98, 39, 6), 57);
    G2Point::lemma_smul_steps_zero(g2_pt(68, 31, 10, 9), g2_pt(31, 98, 39, 6), 57);
    assert(G2Point::mul_steps_defined(g2_pt(68, 31, 10, 9), g2_pt(84, 54, 48, 91), 0, 58));
    assert(G2Point::mul_steps_defined(g2_pt(68, 31, 10, 9), g2_pt(18, 35, 17, 99), 0, 59));
    assert(G2Point::mul_steps_defined(g2_pt(83, 80, 84, 22), g2_pt(93, 48, 94, 99), 1, 60));
    assert(G2Point::mul_steps_defined(g2_pt(0, 3, 9, 49), g2_pt(18, 69, 94, 11), 3, 61));
    assert(G2Point::mul_steps_defined(g2_pt(0, 3, 9, 49), g2_pt(5, 72, 16, 44), 6, 62));
    assert(G2Point::mul_steps_defined(g2_pt(0, 3, 9, 49), g2_pt(38, 33, 61, 75), 12, 63));
    assert(G2Point::mul_steps_defined(G2Point::Infinity, g2_pt(0, 3, 9, 49), 25, 64));
    assert(G2Point::smul_steps(G2Point::Infinity, g2_pt(0, 3, 9, 49), 25, 64) == G2Point::smul_steps(g2_pt(0, 3, 9, 49), g2_pt(38, 33, 61, 75), 12, 63));
    assert(G2Point::smul_steps(g2_pt(0, 3, 9, 49), g2_pt(38, 33, 61, 75), 12, 63) == G2Point::smul_steps(g2_pt(0, 3, 9, 49), g2_pt(5, 72, 16, 44), 6, 62));
    assert(G2Point::smul_steps(g2_pt(0, 3, 9, 49), g2_pt(5, 72, 16, 44), 6, 62) == G2Point::smul_steps(g2_pt(0, 3, 9, 49), g2_pt(18, 69, 94, 11), 3, 61));
    assert(G2Point::smul_steps(g2_pt(0, 3, 9, 49), g2_pt(18, 69, 94, 11), 3, 61) == G2Point::smul_steps(g2_pt(83, 80, 84, 22), g2_pt(93, 48, 94, 99), 1, 60));
    assert(G2Point::smul_steps(g2_pt(83, 80, 84, 22), g2_pt(93, 48, 94, 99), 1, 60) == G2Point::smul_steps(g2_pt(68, 31, 10, 9), g2_pt(18, 35, 17, 99), 0, 59));
    assert(G2Point::smul_steps(g2_pt(68, 31, 10, 9), g2_pt(18, 35, 17, 99), 0, 59) == G2Point::smul_steps(g2_pt(68, 31, 10, 9), g2_pt(84, 54, 48, 91), 0, 58));
    assert(G2Point::smul_steps(g2_pt(68, 31, 10, 9), g2_pt(84, 54, 48, 91), 0, 58) == G2Point::smul_steps(g2_pt(68, 31, 10, 9), g2_pt(31, 98, 39, 6), 0, 57));
    crate::pairing_values::lemma_distort_at(68, 31, 10, 9, 75, 3, 100, 0);
    assert(col_point(25) == crate::pairing_values::g1p(75, 100));
}

/// `26 H` by double-and-add: defined, and mapped by `i -> 10` to `26 P`.
#[verifier::spinoff_prover]
proof fn lemma_wide_26()
    ensures
        G2Point::sgenerator().mul_defined(26),
        G2Point::sgenerator().smul(26) == g2_pt(31, 98, 39, 6),
        sproject(g2_pt(31, 98, 39, 6)) == col_point(26),
{
    lemma_addition_5();
    lemma_wide_addition_9();
    lemma_double_0();
    lemma_double_1();
    lemma_double_2();
    lemma_double_3();
    lemma_double_4();
    lemma_double_5();
    lemma_double_6();
    lemma_cycle_steps(g2_pt(31, 98, 39, 6), g2_pt(31, 98, 39, 6), 57);
    G2Point::lemma_smul_steps_zero(g2_pt(31, 98, 39, 6), g2_pt(31, 98, 39, 6), 57);
    assert(G2Point::mul_steps_defined(g2_pt(31, 98, 39, 6), g2_pt(84, 54, 48, 91), 0, 58));
    assert(G2Point::mul_steps_defined(g2_pt(31, 98, 39, 6), g2_pt(18, 35, 17, 99), 0, 59));
    assert(G2Point::mul_steps_defined(g2_pt(65, 87, 47, 11), g2_pt(93, 48, 94, 99), 1, 60));
    assert(G2Point::mul_steps_defined(g2_pt(38, 33, 61, 75), g2_pt(18, 69, 94, 11), 3, 61));
    assert(G2Point::mul_steps_defined(g2_pt(38, 33, 61, 75), g2_pt(5, 72, 16, 44), 6, 62));
    assert(G2Point::mul_steps_defined(G2Point::Infinity, g2_pt(38, 33, 61, 75), 13, 63));
    assert(G2Point::mul_steps_defined(G2Point::Infinity, g2_pt(0, 3, 9, 49), 26, 64));
    assert(G2Point::smul_steps(G2Point::Infinity, g2_pt(0, 3, 9, 49), 26, 64) == G2Point::smul_steps(G2Point::Infinity, g2_pt(38, 33, 61, 75), 13, 63));
    assert(G2Point::smul_steps(G2Point::Infinity, g2_pt(38, 33, 61, 75), 13, 63) == G2Point::smul_steps(g2_pt(38, 33, 61, 75), g2_pt(5, 72, 16, 44), 6, 62));
    assert(G2Point::smul_steps(g2_pt(38, 33, 61, 75), g2_pt(5, 72, 16, 44), 6, 62) == G2Point::smul_steps(g2_pt(38, 33, 61, 75), g2_pt(18, 69, 94, 11), 3, 61));
    assert(G2Point::smul_steps(g2_pt(38, 33, 61, 75), g2_pt(18, 69, 94, 11), 3, 61) == G2Point::smul_steps(g2_pt(65, 87, 47, 11), g2_pt(93, 48, 94, 99), 1, 60));
    assert(G2Point::smul_steps(g2_pt(65, 87, 47, 11), g2_pt(93, 48, 94, 99), 1, 60) == G2Point::smul_steps(g2_pt(31, 98, 39, 6), g2_pt(18, 35, 17, 99), 0, 59));
    assert(G2Point::smul_steps(g2_pt(31, 98, 39, 6), g2_pt(18, 35, 17, 99), 0, 59) == G2Point::smul_steps(g2_pt(31, 98, 39, 6), g2_pt(84, 54, 48, 91), 0, 58));
    assert(G2Point::smul_steps(g2_pt(31, 98, 39, 6), g2_pt(84, 54, 48, 91), 0, 58) == G2Point::smul_steps(g2_pt(31, 98, 39, 6), g2_pt(31, 98, 39, 6), 0, 57));
    crate::pairing_values::lemma_distort_at(31, 98, 39, 6, 1, 10, 99, 0);
    assert(col_point(26) == crate::pairing_values::g1p(1, 99));
}

/// `27 H` by double-and-add: defined, and mapped by `i -> 10` to `27 P`.
#[verifier::spinoff_prover]
proof fn lemma_wide_27()
    ensures
        G2Point::sgenerator().mul_defined(27),
        G2Point::sgenerator().smul(27) == g2_pt(5, 95, 77, 68),
        sproject(g2_pt(5, 95, 77, 68)) == col_point(27),
{
    lemma_addition_0();
    lemma_addition_6();
    lemma_wide_addition_10();
    lemma_double_0();
    lemma_double_1();
    lemma_double_2();
    lemma_double_3();
    lemma_double_4();
    lemma_double_5();
    lemma_double_6();
    lemma_cycle_steps(g2_pt(5, 95, 77, 68), g2_pt(31, 98, 39, 6), 57);
    G2Point::lemma_smul_steps_zero(g2_pt(5, 95, 77, 68), g2_pt(31, 98, 39, 6), 57);
    assert(G2Point::mul_steps_defined(g2_pt(5, 95, 77, 68), g2_pt(84, 54, 48, 91), 0, 58));
    assert(G2Point::mul_steps_defined(g2_pt(5, 95, 77, 68), g2_pt(18, 35, 17, 99), 0, 59));
    assert(G2Point::mul_steps_defined(g2_pt(61, 30, 84, 76), g2_pt(93, 48, 94, 99), 1, 60));
    assert(G2Point::mul_steps_defined(g2_pt(19, 91, 88, 44), g2_pt(18, 69, 94, 11), 3, 61));
    assert(G2Point::mul_steps_defined(g2_pt(19, 91, 88, 44), g2_pt(5, 72, 16, 44), 6, 62));
    assert(G2Point::mul_steps_defined(g2_pt(0, 3, 9, 49), g2_pt(38, 33, 61, 75), 13, 63));
    assert(G2Point::mul_steps_defined(G2Point::Infinity, g2_pt(0, 3, 9, 49), 27, 64));
    assert(G2Point::smul_steps(G2Point::Infinity, g2_pt(0, 3, 9, 49), 27, 64) == G2Point::smul_steps(g2_pt(0, 3, 9, 49), g2_pt(38, 33, 61, 75), 13, 63));
    assert(G2Point::smul_steps(g2_pt(0, 3, 9, 49), g2_pt(38, 33, 61, 75), 13, 63) == G2Point::smul_steps(g2_pt(19, 91, 88, 44), g2_pt(5, 72, 16, 44), 6, 62));
    assert(G2Point::smul_steps(g2_pt(19, 91, 88, 44), g2_pt(5, 72, 16, 44), 6, 62) == G2Point::smul_steps(g2_pt(19, 91, 88, 44), g2_pt(18, 69, 94, 11), 3, 61));
    assert(G2Point::smul_steps(g2_pt(19, 91, 88, 44), g2_pt(18, 69, 94, 11), 3, 61) == G2Point::smul_steps(g2_pt(61, 30, 84, 76), g2_pt(93, 48, 94, 99), 1, 60));
    assert(G2Point::smul_steps(g2_pt(61, 30, 84, 76), g2_pt(93, 48, 94, 99), 1, 60) == G2Point::smul_steps(g2_pt(5, 95, 77, 68), g2_pt(18, 35, 17, 99), 0, 59));
    assert(G2Point::smul_steps(g2_pt(5, 95, 77, 68), g2_pt(18, 35, 17, 99), 0, 59) == G2Point::smul_steps(g2_pt(5, 95, 77, 68), g2_pt(84, 54, 48, 91), 0, 58));
    assert(G2Point::smul_steps(g2_pt(5, 95, 77, 68), g2_pt(84, 54, 48, 91), 0, 58) == G2Point::smul_steps(g2_pt(5, 95, 77, 68), g2_pt(31, 98, 39, 6), 0, 57));
    crate::pairing_values::lemma_distort_at(5, 95, 77, 68, 46, 9, 50, 7);
    assert(col_point(27) == crate::pairing_values::g1p(46, 50));
}

/// `28 H` by double-and-add: defined, and mapped by `i -> 10` to `28 P`.
#[verifier::spinoff_prover]
proof fn lemma_wide_28()
    ensures
        G2Point::sgenerator().mul_defined(28),
        G2Point::sgenerator().smul(28) == g2_pt(83, 3, 54, 52),
        sproject(g2_pt(83, 3, 54, 52)) == col_point(28),
{
    lemma_addition_7();
    lemma_wide_addition_11();
    lemma_double_0();
    lemma_double_1();
    lemma_double_2();
    lemma_double_3();
    lemma_double_4();
    lemma_double_5();
    lemma_double_6();
    lemma_cycle_steps(g2_pt(83, 3, 54, 52), g2_pt(31, 98, 39, 6), 57);
    G2Point::lemma_smul_steps_zero(g2_pt(83, 3, 54, 52), g2_pt(31, 98, 39, 6), 57);
    assert(G2Point::mul_steps_defined(g2_pt(83, 3, 54, 52), g2_pt(84, 54, 48, 91), 0, 58));
    assert(G2Point::mul_steps_defined(g2_pt(83, 3, 54, 52), g2_pt(18, 35, 17, 99), 0, 59));
    assert(G2Point::mul_steps_defined(g2_pt(29, 87, 70, 40), g2_pt(93, 48, 94, 99), 1, 60));
    assert(G2Point::mul_steps_defined(g2_pt(5, 72, 16, 44), g2_pt(18, 69, 94, 11), 3, 61));
    assert(G2Point::mul_steps_defined(G2Point::Infinity, g2_pt(5, 72, 16, 44), 7, 62));
    assert(G2Point::mul_steps_defined(G2Point::Infinity, g2_pt(38, 33, 61, 75), 14, 63));
    assert(G2Point::mul_steps_defined(G2Point::Infinity, g2_pt(0, 3, 9, 49), 28, 64));
    assert(G2Point::smul_steps(G2Point::Infinity, g2_pt(0, 3, 9, 49), 28, 64) == G2Point::smul_steps(G2Point::Infinity, g2_pt(38, 33, 61, 75), 14, 63));
    assert(G2Point::smul_steps(G2Point::Infinity, g2_pt(38, 33, 61, 75), 14, 63) == G2Point::smul_steps(G2Point::Infinity, g2_pt(5, 72, 16, 44), 7, 62));
    assert(G2Point::smul_steps(G2Point::Infinity, g2_pt(5, 72, 16, 44), 7, 62) == G2Point::smul_steps(g2_pt(5, 72, 16, 44), g2_pt(18, 69, 94, 11), 3, 61));
    assert(G2Point::smul_steps(g2_pt(5, 72, 16, 44), g2_pt(18, 69, 94, 11), 3, 61) == G2Point::smul_steps(g2_pt(29, 87, 70, 40), g2_pt(93, 48, 94, 99), 1, 60));
    assert(G2Point::smul_steps(g2_pt(29, 87, 70, 40), g2_pt(93, 48, 94, 99), 1, 60) == G2Point::smul_steps(g2_pt(83, 3, 54, 52), g2_pt(18, 35, 17, 99), 0, 59));
    assert(G2Point::smul_steps(g2_pt(83, 3, 54, 52), g2_pt(18, 35, 17, 99), 0, 59) == G2Point::smul_steps(g2_pt(83, 3, 54, 52), g2_pt(84, 54, 48, 91), 0, 58));
    assert(G2Point::smul_steps(g2_pt(83, 3, 54, 52), g2_pt(84, 54, 48, 91), 0, 58) == G2Point::smul_steps(g2_pt(83, 3, 54, 52), g2_pt(31, 98, 39, 6), 0, 57));
    crate::pairing_values::lemma_distort_at(83, 3, 54, 52, 12, 1, 69, 5);
    assert(col_point(28) == crate::pairing_values::g1p(12, 69));
}

/// `29 H` by double-and-add: defined, and mapped by `i -> 10` to `29 P`.
#[verifier::spinoff_prover]
proof fn lemma_wide_29()
    ensures
        G2Point::sgenerator().mul_defined(29),
        G2Point::sgenerator().smul(29) == g2_pt(13, 79, 95, 59),
        sproject(g2_pt(13, 79, 95, 59)) == col_point(29),
{
    lemma_addition_1();
    lemma_addition_8();
    lemma_wide_addition_12();
    lemma_double_0();
    lemma_double_1();
    lemma_double_2();
    lemma_double_3();
    lemma_double_4();
    lemma_double_5();
    lemma_double_6();
    lemma_cycle_steps(g2_pt(13, 79, 95, 59), g2_pt(31, 98, 39, 6), 57);
    G2Point::lemma_smul_steps_zero(g2_pt(13, 79, 95, 59), g2_pt(31, 98, 39, 6), 57);
    assert(G2Point::mul_steps_defined(g2_pt(13, 79, 95, 59), g2_pt(84, 54, 48, 91), 0, 58));
    assert(G2Point::mul_steps_defined(g2_pt(13, 79, 95, 59), g2_pt(18, 35, 17, 99), 0, 59));
    assert(G2Point::mul_steps_defined(g2_pt(4, 46, 3, 36), g2_pt(93, 48, 94, 99), 1, 60));
    assert(G2Point::mul_steps_defined(g2_pt(69, 33, 71, 86), g2_pt(18, 69, 94, 11), 3, 61));
    assert(G2Point::mul_steps_defined(g2_pt(0, 3, 9, 49), g2_pt(5, 72, 16, 44), 7, 62));
    assert(G2Point::mul_steps_defined(g2_pt(0, 3, 9, 49), g2_pt(38, 33, 61, 75), 14, 63));
    assert(G2Point::mul_steps_defined(G2Point::Infinity, g2_pt(0, 3, 9, 49), 29, 64));
    assert(G2Point::smul_steps(G2Point::Infinity, g2_pt(0, 3, 9, 49), 29, 64) == G2Point::smul_steps(g2_pt(0, 3, 9, 49), g2_pt(38, 33, 61, 75), 14, 63));
    assert(G2Point::smul_steps(g2_pt(0, 3, 9, 49), g2_pt(38, 33, 61, 75), 14, 63) == G2Point::smul_steps(g2_pt(0, 3, 9, 49), g2_pt(5, 72, 16, 44), 7, 62));
    assert(G2Point::smul_steps(g2_pt(0, 3, 9, 49), g2_pt(5, 72, 16, 44), 7, 62) == G2Point::smul_steps(g2_pt(69, 33, 71, 86), g2_pt(18, 69, 94, 11), 3, 61));
    assert(G2Point::smul_steps(g2_pt(69, 33, 71, 86), g2_pt(18, 69, 94, 11), 3, 61) == G2Point::smul_steps(g2_pt(4, 46, 3, 36), g2_pt(93, 48, 94, 99), 1, 60));
    assert(G2Point::smul_steps(g2_pt(4, 46, 3, 36), g2_pt(93, 48, 94, 99), 1, 60) == G2Point::smul_steps(g2_pt(13, 79, 95, 59), g2_pt(18, 35, 17, 99), 0, 59));
    assert(G2Point::smul_steps(g2_pt(13, 79, 95, 59), g2_pt(18, 35, 17, 99), 0, 59) == G2Point::smul_steps(g2_pt(13, 79, 95, 59), g2_pt(84, 54, 48, 91), 0, 58));
    assert(G2Point::smul_steps(g2_pt(13, 79, 95, 59), g2_pt(84, 54, 48, 91), 0, 58) == G2Point::smul_steps(g2_pt(13, 79, 95, 59), g2_pt(31, 98, 39, 6), 0, 57));
    crate::pairing_values::lemma_distort_at(13, 79, 95, 59, 96, 7, 79, 6);
    assert(col_point(29) == crate::pairing_values::g1p(96, 79));
}

/// `30 H` by double-and-add: defined, and mapped by `i -> 10` to `30 P`.
#[verifier::spinoff_prover]
proof fn lemma_wide_30()
    ensures
        G2Point::sgenerator().mul_defined(30),
        G2Point::sgenerator().smul(30) == g2_pt(15, 71, 91, 16),
        sproject(g2_pt(15, 71, 91, 16)) == col_point(30),
{
    lemma_addition_2();
    lemma_addition_9();
    lemma_wide_addition_13();
    lemma_double_0();
    lemma_double_1();
    lemma_double_2();
    lemma_double_3();
    lemma_double_4();
    lemma_double_5();
    lemma_double_6();
    lemma_cycle_steps(g2_pt(15, 71, 91, 16), g2_pt(31, 98, 39, 6), 57);
    G2Point::lemma_smul_steps_zero(g2_pt(15, 71, 91, 16), g2_pt(31, 98, 39, 6), 57);
    assert(G2Point::mul_steps_defined(g2_pt(15, 71, 91, 16), g2_pt(84, 54, 48, 91), 0, 58));
    assert(G2Point::mul_steps_defined(g2_pt(15, 71, 91, 16), g2_pt(18, 35, 17, 99), 0, 59));
    assert(G2Point::mul_steps_defined(g2_pt(42, 100, 84, 16), g2_pt(93, 48, 94, 99), 1, 60));
    assert(G2Point::mul_steps_defined(g2_pt(57, 46, 17, 52), g2_pt(18, 69, 94, 11), 3, 61));
    assert(G2Point::mul_steps_defined(g2_pt(38, 33, 61, 75), g2_pt(5, 72, 16, 44), 7, 62));
    assert(G2Point::mul_steps_defined(G2Point::Infinity, g2_pt(38, 33, 61, 75), 15, 63));
    assert(G2Point::mul_steps_defined(G2Point::Infinity, g2_pt(0, 3, 9, 49), 30, 64));
    assert(G2Point::smul_steps(G2Point::Infinity, g2_pt(0, 3, 9, 49), 30, 64) == G2Point::smul_steps(G2Point::Infinity, g2_pt(38, 33, 61, 75), 15, 63));
    assert(G2Point::smul_steps(G2Point::Infinity, g2_pt(38, 33, 61, 75), 15, 63) == G2Point::smul_steps(g2_pt(38, 33, 61, 75), g2_pt(5, 72, 16, 44), 7, 62));
    assert(G2Point::smul_steps(g2_pt(38, 33, 61, 75), g2_pt(5, 72, 16, 44), 7, 62) == G2Point::smul_steps(g2_pt(57, 46, 17, 52), g2_pt(18, 69, 94, 11), 3, 61));
    assert(G2Point::smul_steps(g2_pt(57, 46, 17, 52), g2_pt(18, 69, 94, 11), 3, 61) == G2Point::smul_steps(g2_pt(42, 100, 84, 16), g2_pt(93, 48, 94, 99), 1, 60));
    assert(G2Point::smul_steps(g2_pt(42, 100, 84, 16), g2_pt(93, 48, 94, 99), 1, 60) == G2Point::smul_steps(g2_pt(15, 71, 91, 16), g2_pt(18, 35, 17, 99), 0, 59));
    assert(G2Point::smul_steps(g2_pt(15, 71, 91, 16), g2_pt(18, 35, 17, 99), 0, 59) == G2Point::smul_steps(g2_pt(15, 71, 91, 16), g2_pt(84, 54, 48, 91), 0, 58));
    assert(G2Point::smul_steps(g2_pt(15, 71, 91, 16), g2_pt(84, 54, 48, 91), 0, 58) == G2Point::smul_steps(g2_pt(15, 71, 91, 16), g2_pt(31, 98, 39, 6), 0, 57));
    crate::pairing_values::lemma_distort_at(15, 71, 91, 16, 18, 7, 49, 2);
    assert(col_point(30) == crate::pairing_values::g1p(18, 49));
}

/// `31 H` by double-and-add: defined, and mapped by `i -> 10` to `31 P`.
#[verifier::spinoff_prover]
proof fn lemma_wide_31()
    ensures
        G2Point::sgenerator().mul_defined(31),
        G2Point::sgenerator().smul(31) == g2_pt(82, 14, 97, 89),
        sproject(g2_pt(82, 14, 97, 89)) == col_point(31),
{
    lemma_addition_0();
    lemma_addition_3();
    lemma_addition_10();
    lemma_wide_addition_14();
    lemma_double_0();
    lemma_double_1();
    lemma_double_2();
    lemma_double_3();
    lemma_double_4();
    lemma_double_5();
    lemma_double_6();
    lemma_cycle_steps(g2_pt(82, 14, 97, 89), g2_pt(31, 98, 39, 6), 57);
    G2Point::lemma_smul_steps_zero(g2_pt(82, 14, 97, 89), g2_pt(31, 98, 39, 6), 57);
    assert(G2Point::mul_steps_defined(g2_pt(82, 14, 97, 89), g2_pt(84, 54, 48, 91), 0, 58));
    assert(G2Point::mul_steps_defined(g2_pt(82, 14, 97, 89), g2_pt(18, 35, 17, 99), 0, 59));
    assert(G2Point::mul_steps_defined(g2_pt(71, 14, 32, 68), g2_pt(93, 48, 94, 99), 1, 60));
    assert(G2Point::mul_steps_defined(g2_pt(81, 47, 93, 16), g2_pt(18, 69, 94, 11), 3, 61));
    assert(G2Point::mul_steps_defined(g2_pt(19, 91, 88, 44), g2_pt(5, 72, 16, 44), 7, 62));
    assert(G2Point::mul_steps_defined(g2_pt(0, 3, 9, 49), g2_pt(38, 33, 61, 75), 15, 63));
    assert(G2Point::mul_steps_defined(G2Point::Infinity, g2_pt(0, 3, 9, 49), 31, 64));
    assert(G2Point::smul_steps(G2Point::Infinity, g2_pt(0, 3, 9, 49), 31, 64) == G2Point::smul_steps(g2_pt(0, 3, 9, 49), g2_pt(38, 33, 61, 75), 15, 63));
    assert(G2Point::smul_steps(g2_pt(0, 3, 9, 49), g2_pt(38, 33, 61, 75), 15, 63) == G2Point::smul_steps(g2_pt(19, 91, 88, 44), g2_pt(5, 72, 16, 44), 7, 62));
    assert(G2Point::smul_steps(g2_pt(19, 91, 88, 44), g2_pt(5, 72, 16, 44), 7, 62) == G2Point::smul_steps(g2_pt(81, 47, 93, 16), g2_pt(18, 69, 94, 11), 3, 61));
    assert(G2Point::smul_steps(g2_pt(81, 47, 93, 16), g2_pt(18, 69, 94, 11), 3, 61) == G2Point::smul_steps(g2_pt(71, 14, 32, 68), g2_pt(93, 48, 94, 99), 1, 60));
    assert(G2Point::smul_steps(g2_pt(71, 14, 32, 68), g2_pt(93, 48, 94, 99), 1, 60) == G2Point::smul_steps(g2_pt(82, 14, 97, 89), g2_pt(18, 35, 17, 99), 0, 59));
    assert(G2Point::smul_steps(g2_pt(82, 14, 97, 89), g2_pt(18, 35, 17, 99), 0, 59) == G2Point::smul_steps(g2_pt(82, 14, 97, 89), g2_pt(84, 54, 48, 91), 0, 58));
    assert(G2Point::smul_steps(g2_pt(82, 14, 97, 89), g2_pt(84, 54, 48, 91), 0, 58) == G2Point::smul_steps(g2_pt(82, 14, 97, 89), g2_pt(31, 98, 39, 6), 0, 57));
    crate::pairing_values::lemma_distort_at(82, 14, 97, 89, 20, 2, 78, 9);
    assert(col_point(31) == crate::pairing_values::g1p(20, 78));
}

/// `32 H` by double-and-add: defined, and mapped by `i -> 10` to `32 P`.
#[verifier::spinoff_prover]
proof fn lemma_wide_32()
    ensures
        G2Point::sgenerator().mul_defined(32),
        G2Point::sgenerator().smul(32) == g2_pt(18, 35, 17, 99),
        sproject(g2_pt(18, 35, 17, 99)) == col_point(32),
{
    lemma_double_0();
    lemma_double_1();
    lemma_double_2();
    lemma_double_3();
    lemma_double_4();
    lemma_double_5();
    lemma_double_6();
    lemma_cycle_steps(g2_pt(18, 35, 17, 99), g2_pt(31, 98, 39, 6), 57);
    G2Point::lemma_smul_steps_zero(g2_pt(18, 35, 17, 99), g2_pt(31, 98, 39, 6), 57);
    assert(G2Point::mul_steps_defined(g2_pt(18, 35, 17, 99), g2_pt(84, 54, 48, 91), 0, 58));
    assert(G2Point::mul_steps_defined(G2Point::Infinity, g2_pt(18, 35, 17, 99), 1, 59));
    assert(G2Point::mul_steps_defined(G2Point::Infinity, g2_pt(93, 48, 94, 99), 2, 60));
    assert(G2Point::mul_steps_defined(G2Point::Infinity, g2_pt(18, 69, 94, 11), 4, 61));
    assert(G2Point::mul_steps_defined(G2Point::Infinity, g2_pt(5, 72, 16, 44), 8, 62));
    assert(G2Point::mul_steps_defined(G2Point::Infinity, g2_pt(38, 33, 61, 75), 16, 63));
    assert(G2Point::mul_steps_defined(G2Point::Infinity, g2_pt(0, 3, 9, 49), 32, 64));
    assert(G2Point::smul_steps(G2Point::Infinity, g2_pt(0, 3, 9, 49), 32, 64) == G2Point::smul_steps(G2Point::Infinity, g2_pt(38, 33, 61, 75), 16, 63));
    assert(G2Point::smul_steps(G2Point::Infinity, g2_pt(38, 33, 61, 75), 16, 63) == G2Point::smul_steps(G2Point::Infinity, g2_pt(5, 72, 16, 44), 8, 62));
    assert(G2Point::smul_steps(G2Point::Infinity, g2_pt(5, 72, 16, 44), 8, 62) == G2Point::smul_steps(G2Point::Infinity, g2_pt(18, 69, 94, 11), 4, 61));
    assert(G2Point::smul_steps(G2Point::Infinity, g2_pt(18, 69, 94, 11), 4, 61) == G2Point::smul_steps(G2Point::Infinity, g2_pt(93, 48, 94, 99), 2, 60));
    assert(G2Point::smul_steps(G2Point::Infinity, g2_pt(93, 48, 94, 99), 2, 60) == G2Point::smul_steps(G2Point::Infinity, g2_pt(18, 35, 17, 99), 1, 59));
    assert(G2Point::smul_steps(G2Point::Infinity, g2_pt(18, 35, 17, 99), 1, 59) == G2Point::smul_steps(g2_pt(18, 35, 17, 99), g2_pt(84, 54, 48, 91), 0, 58));
    assert(G2Point::smul_steps(g2_pt(18, 35, 17, 99), g2_pt(84, 54, 48, 91), 0, 58) == G2Point::smul_steps(g2_pt(18, 35, 17, 99), g2_pt(31, 98, 39, 6), 0, 57));
    crate::pairing_values::lemma_distort_at(18, 35, 17, 99, 65, 3, 98, 9);
    assert(col_point(32) == crate::pairing_values::g1p(65, 98));
}

/// `33 H` by double-and-add: defined, and mapped by `i -> 10` to `33 P`.
#[verifier::spinoff_prover]
proof fn lemma_wide_33()
    ensures
        G2Point::sgenerator().mul_defined(33),
        G2Point::sgenerator().smul(33) == g2_pt(28, 81, 31, 48),
        sproject(g2_pt(28, 81, 31, 48)) == col_point(33),
{
    lemma_wide_addition_15();
    lemma_double_0();
    lemma_double_1();
    lemma_double_2();
    lemma_double_3();
    lemma_double_4();
    lemma_double_5();
    lemma_double_6();
    lemma_cycle_steps(g2_pt(28, 81, 31, 48), g2_pt(31, 98, 39, 6), 57);
    G2Point::lemma_smul_steps_zero(g2_pt(28, 81, 31, 48), g2_pt(31, 98, 39, 6), 57);
    assert(G2Point::mul_steps_defined(g2_pt(28, 81, 31, 48), g2_pt(84, 54, 48, 91), 0, 58));
    assert(G2Point::mul_steps_defined(g2_pt(0, 3, 9, 49), g2_pt(18, 35, 17, 99), 1, 59));
    assert(G2Point::mul_steps_defined(g2_pt(0, 3, 9, 49), g2_pt(93, 48, 94, 99), 2, 60));
    assert(G2Point::mul_steps_defined(g2_pt(0, 3, 9, 49), g2_pt(18, 69, 94, 11), 4, 61));
    assert(G2Point::mul_steps_defined(g2_pt(0, 3, 9, 49), g2_pt(5, 72, 16, 44), 8, 62));
    assert(G2Point::mul_steps_defined(g2_pt(0, 3, 9, 49), g2_pt(38, 33, 61, 75), 16, 63));
    assert(G2Point::mul_steps_defined(G2Point::Infinity, g2_pt(0, 3, 9, 49), 33, 64));
    assert(G2Point::smul_steps(G2Point::Infinity, g2_pt(0, 3, 9, 49), 33, 64) == G2Point::smul_steps(g2_pt(0, 3, 9, 49), g2_pt(38, 33, 61, 75), 16, 63));
    assert(G2Point::smul_steps(g2_pt(0, 3, 9, 49), g2_pt(38, 33, 61, 75), 16, 63) == G2Point::smul_steps(g2_pt(0, 3, 9, 49), g2_pt(5, 72, 16, 44), 8, 62));
    assert(G2Point::smul_steps(g2_pt(0, 3, 9, 49), g2_pt(5, 72, 16, 44), 8, 62) == G2Point::smul_steps(g2_pt(0, 3, 9, 49), g2_pt(18, 69, 94, 11), 4, 61));
    assert(G2Point::smul_steps(g2_pt(0, 3, 9, 49), g2_pt(18, 69, 94, 11), 4, 61) == G2Point::smul_steps(g2_pt(0, 3, 9, 49), g2_pt(93, 48, 94, 99), 2, 60));
    assert(G2Point::smul_steps(g2_pt(0, 3, 9, 49), g2_pt(93, 48, 94, 99), 2, 60) == G2Point::smul_steps(g2_pt(0, 3, 9, 49), g2_pt(18, 35, 17, 99), 1, 59));
    assert(G2Point::smul_steps(g2_pt(0, 3, 9, 49), g2_pt(18, 35, 17, 99), 1, 59) == G2Point::smul_steps(g2_pt(28, 81, 31, 48), g2_pt(84, 54, 48, 91), 0, 58));
    assert(G2Point::smul_steps(g2_pt(28, 81, 31, 48), g2_pt(84, 54, 48, 91), 0, 58) == G2Point::smul_steps(g2_pt(28, 81, 31, 48), g2_pt(31, 98, 39, 6), 0, 57));
    crate::pairing_values::lemma_distort_at(28, 81, 31, 48, 30, 8, 6, 5);
    assert(col_point(33) == crate::pairing_values::g1p(30, 6));
}

/// `35 H` by double-and-add: defined, and mapped by `i -> 10` to `1 P`.
#[verifier::spinoff_prover]
proof fn lemma_wide_35()
    ensures
        G2Point::sgenerator().mul_defined(35),
        G2Point::sgenerator().smul(35) == g2_pt(74, 36, 41, 66),
        sproject(g2_pt(74, 36, 41, 66)) == col_point(1),
{
    lemma_addition_0();
    lemma_wide_addition_16();
    lemma_double_0();
    lemma_double_1();
    lemma_double_2();
    lemma_double_3();
    lemma_double_4();
    lemma_double_5();
    lemma_double_6();
    lemma_cycle_steps(g2_pt(74, 36, 41, 66), g2_pt(31, 98, 39, 6), 57);
    G2Point::lemma_smul_steps_zero(g2_pt(74, 36, 41, 66), g2_pt(31, 98, 39, 6), 57);
    assert(G2Point::mul_steps_defined(g2_pt(74, 36, 41, 66), g2_pt(84, 54, 48, 91), 0, 58));
    assert(G2Point::mul_steps_defined(g2_pt(19, 91, 88, 44), g2_pt(18, 35, 17, 99), 1, 59));
    assert(G2Point::mul_steps_defined(g2_pt(19, 91, 88, 44), g2_pt(93, 48, 94, 99), 2, 60));
    assert(G2Point::mul_steps_defined(g2_pt(19, 91, 88, 44), g2_pt(18, 69, 94, 11), 4, 61));
    assert(G2Point::mul_steps_defined(g2_pt(19, 91, 88, 44), g2_pt(5, 72, 16, 44), 8, 62));
    assert(G2Point::mul_steps_defined(g2_pt(0, 3, 9, 49), g2_pt(38, 33, 61, 75), 17, 63));
    assert(G2Point::mul_steps_defined(G2Point::Infinity, g2_pt(0, 3, 9, 49), 35, 64));
    assert(G2Point::smul_steps(G2Point::Infinity, g2_pt(0, 3, 9, 49), 35, 64) == G2Point::smul_steps(g2_pt(0, 3, 9, 49), g2_pt(38, 33, 61, 75), 17, 63));
    assert(G2Point::smul_steps(g2_pt(0, 3, 9, 49), g2_pt(38, 33, 61, 75), 17, 63) == G2Point::smul_steps(g2_pt(19, 91, 88, 44), g2_pt(5, 72, 16, 44), 8, 62));
    assert(G2Point::smul_steps(g2_pt(19, 91, 88, 44), g2_pt(5, 72, 16, 44), 8, 62) == G2Point::smul_steps(g2_pt(19, 91, 88, 44), g2_pt(18, 69, 94, 11), 4, 61));
    assert(G2Point::smul_steps(g2_pt(19, 91, 88, 44), g2_pt(18, 69, 94, 11), 4, 61) == G2Point::smul_steps(g2_pt(19, 91, 88, 44), g2_pt(93, 48, 94, 99), 2, 60));
    assert(G2Point::smul_steps(g2_pt(19, 91, 88, 44), g2_pt(93, 48, 94, 99), 2, 60) == G2Point::smul_steps(g2_pt(19, 91, 88, 44), g2_pt(18, 35, 17, 99), 1, 59));
    assert(G2Point::smul_steps(g2_pt(19, 91, 88, 44), g2_pt(18, 35, 17, 99), 1, 59) == G2Point::smul_steps(g2_pt(74, 36, 41, 66), g2_pt(84, 54, 48, 91), 0, 58));
    assert(G2Point::smul_steps(g2_pt(74, 36, 41, 66), g2_pt(84, 54, 48, 91), 0, 58) == G2Point::smul_steps(g2_pt(74, 36, 41, 66), g2_pt(31, 98, 39, 6), 0, 57));
    crate::pairing_values::lemma_distort_at(74, 36, 41, 66, 30, 4, 95, 6);
    assert(col_point(1) == crate::pairing_values::g1p(30, 95));
}

/// `36 H` by double-and-add: defined, and mapped by `i -> 10` to `2 P`.
#[verifier::spinoff_prover]
proof fn lemma_wide_36()
    ensures
        G2Point::sgenerator().mul_defined(36),
        G2Point::sgenerator().smul(36) == g2_pt(99, 37, 73, 94),
        sproject(g2_pt(99, 37, 73, 94)) == col_point(2),
{
    lemma_wide_addition_17();
    lemma_double_0();
    lemma_double_1();
    lemma_double_2();
    lemma_double_3();
    lemma_double_4();
    lemma_double_5();
    lemma_double_6();
    lemma_cycle_steps(g2_pt(99, 37, 73, 94), g2_pt(31, 98, 39, 6), 57);
    G2Point::lemma_smul_steps_zero(g2_pt(99, 37, 73, 94), g2_pt(31, 98, 39, 6), 57);
    assert(G2Point::mul_steps_defined(g2_pt(99, 37, 73, 94), g2_pt(84, 54, 48, 91), 0, 58));
    assert(G2Point::mul_steps_defined(g2_pt(5, 72, 16, 44), g2_pt(18, 35, 17, 99), 1, 59));
    assert(G2Point::mul_steps_defined(g2_pt(5, 72, 16, 44), g2_pt(93, 48, 94, 99), 2, 60));
    assert(G2Point::mul_steps_defined(g2_pt(5, 72, 16, 44), g2_pt(18, 69, 94, 11), 4, 61));
    assert(G2Point::mul_steps_defined(G2Point::Infinity, g2_pt(5, 72, 16, 44), 9, 62));
    assert(G2Point::mul_steps_defined(G2Point::Infinity, g2_pt(38, 33, 61, 75), 18, 63));
    assert(G2Point::mul_steps_defined(G2Point::Infinity, g2_pt(0, 3, 9, 49), 36, 64));
    assert(G2Point::smul_steps(G2Point::Infinity, g2_pt(0, 3, 9, 49), 36, 64) == G2Point::smul_steps(G2Point::Infinity, g2_pt(38, 33, 61, 75), 18, 63));
    assert(G2Point::smul_steps(G2Point::Infinity, g2_pt(38, 33, 61, 75), 18, 63) == G2Point::smul_steps(G2Point::Infinity, g2_pt(5, 72, 16, 44), 9, 62));
    assert(G2Point::smul_steps(G2Point::Infinity, g2_pt(5, 72, 16, 44), 9, 62) == G2Point::smul_steps(g2_pt(5, 72, 16, 44), g2_pt(18, 69, 94, 11), 4, 61));
    assert(G2Point::smul_steps(g2_pt(5, 72, 16, 44), g2_pt(18, 69, 94, 11), 4, 61) == G2Point::smul_steps(g2_pt(5, 72, 16, 44), g2_pt(93, 48, 94, 99), 2, 60));
    assert(G2Point::smul_steps(g2_pt(5, 72, 16, 44), g2_pt(93, 48, 94, 99), 2, 60) == G2Point::smul_steps(g2_pt(5, 72, 16, 44), g2_pt(18, 35, 17, 99), 1, 59));
    assert(G2Point::smul_steps(g2_pt(5, 72, 16, 44), g2_pt(18, 35, 17, 99), 1, 59) == G2Point::smul_steps(g2_pt(99, 37, 73, 94), g2_pt(84, 54, 48, 91), 0, 58));
    assert(G2Point::smul_steps(g2_pt(99, 37, 73, 94), g2_pt(84, 54, 48, 91), 0, 58) == G2Point::smul_steps(g2_pt(99, 37, 73, 94), g2_pt(31, 98, 39, 6), 0, 57));
    crate::pairing_values::lemma_distort_at(99, 37, 73, 94, 65, 4, 3, 10);
    assert(col_point(2) == crate::pairing_values::g1p(65, 3));
}

/// `37 H` by double-and-add: defined, and mapped by `i -> 10` to `3 P`.
#[verifier::spinoff_prover]
proof fn lemma_wide_37()
    ensures
        G2Point::sgenerator().mul_defined(37),
        G2Point::sgenerator().smul(37) == g2_pt(36, 59, 100, 63),
        sproject(g2_pt(36, 59, 100, 63)) == col_point(3),
{
    lemma_addition_1();
    lemma_wide_addition_18();
    lemma_double_0();
    lemma_double_1();
    lemma_double_2();
    lemma_double_3();
    lemma_double_4();
    lemma_double_5();
    lemma_double_6();
    lemma_cycle_steps(g2_pt(36, 59, 100, 63), g2_pt(31, 98, 39, 6), 57);
    G2Point::lemma_smul_steps_zero(g2_pt(36, 59, 100, 63), g2_pt(31, 98, 39, 6), 57);
    assert(G2Point::mul_steps_defined(g2_pt(36, 59, 100, 63), g2_pt(84, 54, 48, 91), 0, 58));
    assert(G2Point::mul_steps_defined(g2_pt(69, 33, 71, 86), g2_pt(18, 35, 17, 99), 1, 59));
    assert(G2Point::mul_steps_defined(g2_pt(69, 33, 71, 86), g2_pt(93, 48, 94, 99), 2, 60));
    assert(G2Point::mul_steps_defined(g2_pt(69, 33, 71, 86), g2_pt(18, 69, 94, 11), 4, 61));
    assert(G2Point::mul_steps_defined(g2_pt(0, 3, 9, 49), g2_pt(5, 72, 16, 44), 9, 62));
    assert(G2Point::mul_steps_defined(g2_pt(0, 3, 9, 49), g2_pt(38, 33, 61, 75), 18, 63));
    assert(G2Point::mul_steps_defined(G2Point::Infinity, g2_pt(0, 3, 9, 49), 37, 64));
    assert(G2Point::smul_steps(G2Point::Infinity, g2_pt(0, 3, 9, 49), 37, 64) == G2Point::smul_steps(g2_pt(0, 3, 9, 49), g2_pt(38, 33, 61, 75), 18, 63));
    assert(G2Point::smul_steps(g2_pt(0, 3, 9, 49), g2_pt(38, 33, 61, 75), 18, 63) == G2Point::smul_steps(g2_pt(0, 3, 9, 49), g2_pt(5, 72, 16, 44), 9, 62));
    assert(G2Point::smul_steps(g2_pt(0, 3, 9, 49), g2_pt(5, 72, 16, 44), 9, 62) == G2Point::smul_steps(g2_pt(69, 33, 71, 86), g2_pt(18, 69, 94, 11), 4, 61));
    assert(G2Point::smul_steps(g2_pt(69, 33, 71, 86), g2_pt(18, 69, 94, 11), 4, 61) == G2Point::smul_steps(g2_pt(69, 33, 71, 86), g2_pt(93, 48, 94, 99), 2, 60));
    assert(G2Point::smul_steps(g2_pt(69, 33, 71, 86), g2_pt(93, 48, 94, 99), 2, 60) == G2Point::smul_steps(g2_pt(69, 33, 71, 86), g2_pt(18, 35, 17, 99), 1, 59));
    assert(G2Point::smul_steps(g2_pt(69, 33, 71, 86), g2_pt(18, 35, 17, 99), 1, 59) == G2Point::smul_steps(g2_pt(36, 59, 100, 63), g2_pt(84, 54, 48, 91), 0, 58));
    assert(G2Point::smul_steps(g2_pt(36, 59, 100, 63), g2_pt(84, 54, 48, 91), 0, 58) == G2Point::smul_steps(g2_pt(36, 59, 100, 63), g2_pt(31, 98, 39, 6), 0, 57));
    crate::pairing_values::lemma_distort_at(36, 59, 100, 63, 20, 6, 23, 7);
    assert(col_point(3) == crate::pairing_values::g1p(20, 23));
}

/// `38 H` by double-and-add: defined, and mapped by `i -> 10` to `4 P`.
#[verifier::spinoff_prover]
proof fn lemma_wide_38()
    ensures
        G2Point::sgenerator().mul_defined(38),
        G2Point::sgenerator().smul(38) == g2_pt(84, 54, 53, 10),
        sproject(g2_pt(84, 54, 53, 10)) == col_point(4),
{
    lemma_addition_2();
    lemma_wide_addition_19();
    lemma_double_0();
    lemma_double_1();
    lemma_double_2();
    lemma_double_3();
    lemma_double_4();
    lemma_double_5();
    lemma_double_6();
    lemma_cycle_steps(g2_pt(84, 54, 53, 10), g2_pt(31, 98, 39, 6), 57);
    G2Point::lemma_smul_steps_zero(g2_pt(84, 54, 53, 10), g2_pt(31, 98, 39, 6), 57);
    assert(G2Point::mul_steps_defined(g2_pt(84, 54, 53, 10), g2_pt(84, 54, 48, 91), 0, 58));
    assert(G2Point::mul_steps_defined(g2_pt(57, 46, 17, 52), g2_pt(18, 35, 17, 99), 1, 59));
    assert(G2Point::mul_steps_defined(g2_pt(57, 46, 17, 52), g2_pt(93, 48, 94, 99), 2, 60));
    assert(G2Point::mul_steps_defined(g2_pt(57, 46, 17, 52), g2_pt(18, 69, 94, 11), 4, 61));
    assert(G2Point::mul_steps_defined(g2_pt(38, 33, 61, 75), g2_pt(5, 72, 16, 44), 9, 62));
    assert(G2Point::mul_steps_defined(G2Point::Infinity, g2_pt(38, 33, 61, 75), 19, 63));
    assert(G2Point::mul_steps_defined(G2Point::Infinity, g2_pt(0, 3, 9, 49), 38, 64));
    assert(G2Point::smul_steps(G2Point::Infinity, g2_pt(0, 3, 9, 49), 38, 64) == G2Point::smul_steps(G2Point::Infinity, g2_pt(38, 33, 61, 75), 19, 63));
    assert(G2Point::smul_steps(G2Point::Infinity, g2_pt(38, 33, 61, 75), 19, 63) == G2Point::smul_steps(g2_pt(38, 33, 61, 75), g2_pt(5, 72, 16, 44), 9, 62));
    assert(G2Point::smul_steps(g2_pt(38, 33, 61, 75), g2_pt(5, 72, 16, 44), 9, 62) == G2Point::smul_steps(g2_pt(57, 46, 17, 52), g2_pt(18, 69, 94, 11), 4, 61));
    assert(G2Point::smul_steps(g2_pt(57, 46, 17, 52), g2_pt(18, 69, 94, 11), 4, 61) == G2Point::smul_steps(g2_pt(57, 46, 17, 52), g2_pt(93, 48, 94, 99), 2, 60));
    assert(G2Point::smul_steps(g2_pt(57, 46, 17, 52), g2_pt(93, 48, 94, 99), 2, 60) == G2Point::smul_steps(g2_pt(57, 46, 17, 52), g2_pt(18, 35, 17, 99), 1, 59));
    assert(G2Point::smul_steps(g2_pt(57, 46, 17, 52), g2_pt(18, 35, 17, 99), 1, 59) == G2Point::smul_steps(g2_pt(84, 54, 53, 10), g2_pt(84, 54, 48, 91), 0, 58));
    assert(G2Point::smul_steps(g2_pt(84, 54, 53, 10), g2_pt(84, 54, 48, 91), 0, 58) == G2Point::smul_steps(g2_pt(84, 54, 53, 10), g2_pt(31, 98, 39, 6), 0, 57));
    crate::pairing_values::lemma_distort_at(84, 54, 53, 10, 18, 6, 52, 1);
    assert(col_point(4) == crate::pairing_values::g1p(18, 52));
}

/// `39 H` by double-and-add: defined, and mapped by `i -> 10` to `5 P`.
#[verifier::spinoff_prover]
proof fn lemma_wide_39()
    ensures
        G2Point::sgenerator().mul_defined(39),
        G2Point::sgenerator().smul(39) == g2_pt(82, 62, 75, 25),
        sproject(g2_pt(82, 62, 75, 25)) == col_point(5),
{
    lemma_addition_0();
    lemma_addition_3();
    lemma_wide_addition_20();
    lemma_double_0();
    lemma_double_1();
    lemma_double_2();
    lemma_double_3();
    lemma_double_4();
    lemma_double_5();
    lemma_double_6();
    lemma_cycle_steps(g2_pt(82, 62, 75, 25), g2_pt(31, 98, 39, 6), 57);
    G2Point::lemma_smul_steps_zero(g2_pt(82, 62, 75, 25), g2_pt(31, 98, 39, 6), 57);
    assert(G2Point::mul_steps_defined(g2_pt(82, 62, 75, 25), g2_pt(84, 54, 48, 91), 0, 58));
    assert(G2Point::mul_steps_defined(g2_pt(81, 47, 93, 16), g2_pt(18, 35, 17, 99), 1, 59));
    assert(G2Point::mul_steps_defined(g2_pt(81, 47, 93, 16), g2_pt(93, 48, 94, 99), 2, 60));
    assert(G2Point::mul_steps_defined(g2_pt(81, 47, 93, 16), g2_pt(18, 69, 94, 11), 4, 61));
    assert(G2Point::mul_steps_defined(g2_pt(19, 91, 88, 44), g2_pt(5, 72, 16, 44), 9, 62));
    assert(G2Point::mul_steps_defined(g2_pt(0, 3, 9, 49), g2_pt(38, 33, 61, 75), 19, 63));
    assert(G2Point::mul_steps_defined(G2Point::Infinity, g2_pt(0, 3, 9, 49), 39, 64));
    assert(G2Point::smul_steps(G2Point::Infinity, g2_pt(0, 3, 9, 49), 39, 64) == G2Point::smul_steps(g2_pt(0, 3, 9, 49), g2_pt(38, 33, 61, 75), 19, 63));
    assert(G2Point::smul_steps(g2_pt(0, 3, 9, 49), g2_pt(38, 33, 61, 75), 19, 63) == G2Point::smul_steps(g2_pt(19, 91, 88, 44), g2_pt(5, 72, 16, 44), 9, 62));
    assert(G2Point::smul_steps(g2_pt(19, 91, 88, 44), g2_pt(5, 72, 16, 44), 9, 62) == G2Point::smul_steps(g2_pt(81, 47, 93, 16), g2_pt(18, 69, 94, 11), 4, 61));
    assert(G2Point::smul_steps(g2_pt(81, 47, 93, 16), g2_pt(18, 69, 94, 11), 4, 61) == G2Point::smul_steps(g2_pt(81, 47, 93, 16), g2_pt(93, 48, 94, 99), 2, 60));
    assert(G2Point::smul_steps(g2_pt(81, 47, 93, 16), g2_pt(93, 48, 94, 99), 2, 60) == G2Point::smul_steps(g2_pt(81, 47, 93, 16), g2_pt(18, 35, 17, 99), 1, 59));
    assert(G2Point::smul_steps(g2_pt(81, 47, 93, 16), g2_pt(18, 35, 17, 99), 1, 59) == G2Point::smul_steps(g2_pt(82, 62, 75, 25), g2_pt(84, 54, 48, 91), 0, 58));
    assert(G2Point::smul_steps(g2_pt(82, 62, 75, 25), g2_pt(84, 54, 48, 91), 0, 58) == G2Point::smul_steps(g2_pt(82, 62, 75, 25), g2_pt(31, 98, 39, 6), 0, 57));
    crate::pairing_values::lemma_distort_at(82, 62, 75, 25, 96, 6, 22, 3);
    assert(col_point(5) == crate::pairing_values::g1p(96, 22));
}

/// `40 H` by double-and-add: defined, and mapped by `i -> 10` to `6 P`.
#[verifier::spinoff_prover]
proof fn lemma_wide_40()
    ensures
        G2Point::sgenerator().mul_defined(40),
        G2Point::sgenerator().smul(40) == g2_pt(38, 58, 51, 89),
        sproject(g2_pt(38, 58, 51, 89)) == col_point(6),
{
    lemma_wide_addition_21();
    lemma_double_0();
    lemma_double_1();
    lemma_double_2();
    lemma_double_3();
    lemma_double_4();
    lemma_double_5();
    lemma_double_6();
    lemma_cycle_steps(g2_pt(38, 58, 51, 89), g2_pt(31, 98, 39, 6), 57);
    G2Point::lemma_smul_steps_zero(g2_pt(38, 58, 51, 89), g2_pt(31, 98, 39, 6), 57);
    assert(G2Point::mul_steps_defined(g2_pt(38, 58, 51, 89), g2_pt(84, 54, 48, 91), 0, 58));
    assert(G2Point::mul_steps_defined(g2_pt(18, 69, 94, 11), g2_pt(18, 35, 17, 99), 1, 59));
    assert(G2Point::mul_steps_defined(g2_pt(18, 69, 94, 11), g2_pt(93, 48, 94, 99), 2, 60));
    assert(G2Point::mul_steps_defined(G2Point::Infinity, g2_pt(18, 69, 94, 11), 5, 61));
    assert(G2Point::mul_steps_defined(G2Point::Infinity, g2_pt(5, 72, 16, 44), 10, 62));
    assert(G2Point::mul_steps_defined(G2Point::Infinity, g2_pt(38, 33, 61, 75), 20, 63));
    assert(G2Point::mul_steps_defined(G2Point::Infinity, g2_pt(0, 3, 9, 49), 40, 64));
    assert(G2Point::smul_steps(G2Point::Infinity, g2_pt(0, 3, 9, 49), 40, 64) == G2Point::smul_steps(G2Point::Infinity, g2_pt(38, 33, 61, 75), 20, 63));
    assert(G2Point::smul_steps(G2Point::Infinity, g2_pt(38, 33, 61, 75), 20, 63) == G2Point::smul_steps(G2Point::Infinity, g2_pt(5, 72, 16, 44), 10, 62));
    assert(G2Point::smul_steps(G2Point::Infinity, g2_pt(5, 72, 16, 44), 10, 62) == G2Point::smul_steps(G2Point::Infinity, g2_pt(18, 69, 94, 11), 5, 61));
    assert(G2Point::smul_steps(G2Point::Infinity, g2_pt(18, 69, 94, 11), 5, 61) == G2Point::smul_steps(g2_pt(18, 69, 94, 11), g2_pt(93, 48, 94, 99), 2, 60));
    assert(G2Point::smul_steps(g2_pt(18, 69, 94, 11), g2_pt(93, 48, 94, 99), 2, 60) == G2Point::smul_steps(g2_pt(18, 69, 94, 11), g2_pt(18, 35, 17, 99), 1, 59));
    assert(G2Point::smul_steps(g2_pt(18, 69, 94, 11), g2_pt(18, 35, 17, 99), 1, 59) == G2Point::smul_steps(g2_pt(38, 58, 51, 89), g2_pt(84, 54, 48, 91), 0, 58));
    assert(G2Point::smul_steps(g2_pt(38, 58, 51, 89), g2_pt(84, 54, 48, 91), 0, 58) == G2Point::smul_steps(g2_pt(38, 58, 51, 89), g2_pt(31, 98, 39, 6), 0, 57));
    crate::pairing_values::lemma_distort_at(38, 58, 51, 89, 12, 6, 32, 9);
    assert(col_point(6) == crate::pairing_values::g1p(12, 32));
}

/// `41 H` by double-and-add: defined, and mapped by `i -> 10` to `7 P`.
#[verifier::spinoff_prover]
proof fn lemma_wide_41()
    ensures
        G2Point::sgenerator().mul_defined(41),
        G2Point::sgenerator().smul(41) == g2_pt(75, 88, 57, 60),
        sproject(g2_pt(75, 88, 57, 60)) == col_point(7),
{
    lemma_addition_4();
    lemma_wide_addition_22();
    lemma_double_0();
    lemma_double_1();
    lemma_double_2();
    lemma_double_3();
    lemma_double_4();
    lemma_double_5();
    lemma_double_6();
    lemma_cycle_steps(g2_pt(75, 88, 57, 60), g2_pt(31, 98, 39, 6), 57);
    G2Point::lemma_smul_steps_zero(g2_pt(75, 88, 57, 60), g2_pt(31, 98, 39, 6), 57);
    assert(G2Point::mul_steps_defined(g2_pt(75, 88, 57, 60), g2_pt(84, 54, 48, 91), 0, 58));
    assert(G2Point::mul_steps_defined(g2_pt(83, 80, 84, 22), g2_pt(18, 35, 17, 99), 1, 59));
    assert(G2Point::mul_steps_defined(g2_pt(83, 80, 84, 22), g2_pt(93, 48, 94, 99), 2, 60));
    assert(G2Point::mul_steps_defined(g2_pt(0, 3, 9, 49), g2_pt(18, 69, 94, 11), 5, 61));
    assert(G2Point::mul_steps_defined(g2_pt(0, 3, 9, 49), g2_pt(5, 72, 16, 44), 10, 62));
    assert(G2Point::mul_steps_defined(g2_pt(0, 3, 9, 49), g2_pt(38, 33, 61, 75), 20, 63));
    assert(G2Point::mul_steps_defined(G2Point::Infinity, g2_pt(0, 3, 9, 49), 41, 64));
    assert(G2Point::smul_steps(G2Point::Infinity, g2_pt(0, 3, 9, 49), 41, 64) == G2Point::smul_steps(g2_pt(0, 3, 9, 49), g2_pt(38, 33, 61, 75), 20, 63));
    assert(G2Point::smul_steps(g2_pt(0, 3, 9, 49), g2_pt(38, 33, 61, 75), 20, 63) == G2Point::smul_steps(g2_pt(0, 3, 9, 49), g2_pt(5, 72, 16, 44), 10, 62));
    assert(G2Point::smul_steps(g2_pt(0, 3, 9, 49), g2_pt(5, 72, 16, 44), 10, 62) == G2Point::smul_steps(g2_pt(0, 3, 9, 49), g2_pt(18, 69, 94, 11), 5, 61));
    assert(G2Point::smul_steps(g2_pt(0, 3, 9, 49), g2_pt(18, 69, 94, 11), 5, 61) == G2Point::smul_steps(g2_pt(83, 80, 84, 22), g2_pt(93, 48, 94, 99), 2, 60));
    assert(G2Point::smul_steps(g2_pt(83, 80, 84, 22), g2_pt(93, 48, 94, 99), 2, 60) == G2Point::smul_steps(g2_pt(83, 80, 84, 22), g2_pt(18, 35, 17, 99), 1, 59));
    assert(G2Point::smul_steps(g2_pt(83, 80, 84, 22), g2_pt(18, 35, 17, 99), 1, 59) == G2Point::smul_steps(g2_pt(75, 88, 57, 60), g2_pt(84, 54, 48, 91), 0, 58));
    assert(G2Point::smul_steps(g2_pt(75, 88, 57, 60), g2_pt(84, 54, 48, 91), 0, 58) == G2Point::smul_steps(g2_pt(75, 88, 57, 60), g2_pt(31, 98, 39, 6), 0, 57));
    crate::pairing_values::lemma_distort_at(75, 88, 57, 60, 46, 9, 51, 6);
    assert(col_point(7) == crate::pairing_values::g1p(46, 51));
}

/// `42 H` by double-and-add: defined, and mapped by `i -> 10` to `8 P`.
#[verifier::spinoff_prover]
proof fn lemma_wide_42()
    ensures
        G2Point::sgenerator().mul_defined(42),
        G2Point::sgenerator().smul(42) == g2_pt(46, 46, 69, 64),
        sproject(g2_pt(46, 46, 69, 64)) == col_point(8),
{
    lemma_addition_5();
    lemma_wide_addition_23();
    lemma_double_0();
    lemma_double_1();
    lemma_double_2();
    lemma_double_3();
    lemma_double_4();
    lemma_double_5();
    lemma_double_6();
    lemma_cycle_steps(g2_pt(46, 46, 69, 64), g2_pt(31, 98, 39, 6), 57);
    G2Point::lemma_smul_steps_zero(g2_pt(46, 46, 69, 64), g2_pt(31, 98, 39, 6), 57);
    assert(G2Point::mul_steps_defined(g2_pt(46, 46, 69, 64), g2_pt(84, 54, 48, 91), 0, 58));
    assert(G2Point::mul_steps_defined(g2_pt(65, 87, 47, 11), g2_pt(18, 35, 17, 99), 1, 59));
    assert(G2Point::mul_steps_defined(g2_pt(65, 87, 47, 11), g2_pt(93, 48, 94, 99), 2, 60));
    assert(G2Point::mul_steps_defined(g2_pt(38, 33, 61, 75), g2_pt(18, 69, 94, 11), 5, 61));
    assert(G2Point::mul_steps_defined(g2_pt(38, 33, 61, 75), g2_pt(5, 72, 16, 44), 10, 62));
    assert(G2Point::mul_steps_defined(G2Point::Infinity, g2_pt(38, 33, 61, 75), 21, 63));
    assert(G2Point::mul_steps_defined(G2Point::Infinity, g2_pt(0, 3, 9, 49), 42, 64));
    assert(G2Point::smul_steps(G2Point::Infinity, g2_pt(0, 3, 9, 49), 42, 64) == G2Point::smul_steps(G2Point::Infinity, g2_pt(38, 33, 61, 75), 21, 63));
    assert(G2Point::smul_steps(G2Point::Infinity, g2_pt(38, 33, 61, 75), 21, 63) == G2Point::smul_steps(g2_pt(38, 33, 61, 75), g2_pt(5, 72, 16, 44), 10, 62));
    assert(G2Point::smul_steps(g2_pt(38, 33, 61, 75), g2_pt(5, 72, 16, 44), 10, 62) == G2Point::smul_steps(g2_pt(38, 33, 61, 75), g2_pt(18, 69, 94, 11), 5, 61));
    assert(G2Point::smul_steps(g2_pt(38, 33, 61, 75), g2_pt(18, 69, 94, 11), 5, 61) == G2Point::smul_steps(g2_pt(65, 87, 47, 11), g2_pt(93, 48, 94, 99), 2, 60));
    assert(G2Point::smul_steps(g2_pt(65, 87, 47, 11), g2_pt(93, 48, 94, 99), 2, 60) == G2Point::smul_steps(g2_pt(65, 87, 47, 11), g2_pt(18, 35, 17, 99), 1, 59));
    assert(G2Point::smul_steps(g2_pt(65, 87, 47, 11), g2_pt(18, 35, 17, 99), 1, 59) == G2Point::smul_steps(g2_pt(46, 46, 69, 64), g2_pt(84, 54, 48, 91), 0, 58));
    assert(G2Point::smul_steps(g2_pt(46, 46, 69, 64), g2_pt(84, 54, 48, 91), 0, 58) == G2Point::smul_steps(g2_pt(46, 46, 69, 64), g2_pt(31, 98, 39, 6), 0, 57));
    crate::pairing_values::lemma_distort_at(46, 46, 69, 64, 1, 5, 2, 7);
    assert(col_point(8) == crate::pairing_values::g1p(1, 2));
}

/// `43 H` by double-and-add: defined, and mapped by `i -> 10` to `9 P`.
#[verifier::spinoff_prover]
proof fn lemma_wide_43()
    ensures
        G2Point::sgenerator().mul_defined(43),
        G2Point::sgenerator().smul(43) == g2_pt(55, 2, 59, 75),
        sproject(g2_pt(55, 2, 59, 75)) == col_point(9),
{
    lemma_addition_0();
    lemma_addition_6();
    lemma_wide_addition_24();
    lemma_double_0();
    lemma_double_1();
    lemma_double_2();
    lemma_double_3();
    lemma_double_4();
    lemma_double_5();
    lemma_double_6();
    lemma_cycle_steps(g2_pt(55, 2, 59, 75), g2_pt(31, 98, 39, 6), 57);
    G2Point::lemma_smul_steps_zero(g2_pt(55, 2, 59, 75), g2_pt(31, 98, 39, 6), 57);
    assert(G2Point::mul_steps_defined(g2_pt(55, 2, 59, 75), g2_pt(84, 54, 48, 91), 0, 58));
    assert(G2Point::mul_steps_defined(g2_pt(61, 30, 84, 76), g2_pt(18, 35, 17, 99), 1, 59));
    assert(G2Point::mul_steps_defined(g2_pt(61, 30, 84, 76), g2_pt(93, 48, 94, 99), 2, 60));
    assert(G2Point::mul_steps_defined(g2_pt(19, 91, 88, 44), g2_pt(18, 69, 94, 11), 5, 61));
    assert(G2Point::mul_steps_defined(g2_pt(19, 91, 88, 44), g2_pt(5, 72, 16, 44), 10, 62));
    assert(G2Point::mul_steps_defined(g2_pt(0, 3, 9, 49), g2_pt(38, 33, 61, 75), 21, 63));
    assert(G2Point::mul_steps_defined(G2Point::Infinity, g2_pt(0, 3, 9, 49), 43, 64));
    assert(G2Point::smul_steps(G2Point::Infinity, g2_pt(0, 3, 9, 49), 43, 64) == G2Point::smul_steps(g2_pt(0, 3, 9, 49), g2_pt(38, 33, 61, 75), 21, 63));
    assert(G2Point::smul_steps(g2_pt(0, 3, 9, 49), g2_pt(38, 33, 61, 75), 21, 63) == G2Point::smul_steps(g2_pt(19, 91, 88, 44), g2_pt(5, 72, 16, 44), 10, 62));
    assert(G2Point::smul_steps(g2_pt(19, 91, 88, 44), g2_pt(5, 72, 16, 44), 10, 62) == G2Point::smul_steps(g2_pt(19, 91, 88, 44), g2_pt(18, 69, 94, 11), 5, 61));
    assert(G2Point::smul_steps(g2_pt(19, 91, 88, 44), g2_pt(18, 69, 94, 11), 5, 61) == G2Point::smul_steps(g2_pt(61, 30, 84, 76), g2_pt(93, 48, 94, 99), 2, 60));
    assert(G2Point::smul_steps(g2_pt(61, 30, 84, 76), g2_pt(93, 48, 94, 99), 2, 60) == G2Point::smul_steps(g2_pt(61, 30, 84, 76), g2_pt(18, 35, 17, 99), 1, 59));
    assert(G2Point::smul_steps(g2_pt(61, 30, 84, 76), g2_pt(18, 35, 17, 99), 1, 59) == G2Point::smul_steps(g2_pt(55, 2, 59, 75), g2_pt(84, 54, 48, 91), 0, 58));
    assert(G2Point::smul_steps(g2_pt(55, 2, 59, 75), g2_pt(84, 54, 48, 91), 0, 58) == G2Point::smul_steps(g2_pt(55, 2, 59, 75), g2_pt(31, 98, 39, 6), 0, 57));
    crate::pairing_values::lemma_distort_at(55, 2, 59, 75, 75, 0, 1, 8);
    assert(col_point(9) == crate::pairing_values::g1p(75, 1));
}

/// `44 H` by double-and-add: defined, and mapped by `i -> 10` to `10 P`.
#[verifier::spinoff_prover]
proof fn lemma_wide_44()
    ensures
        G2Point::sgenerator().mul_defined(44),
        G2Point::sgenerator().smul(44) == g2_pt(71, 46, 11, 55),
        sproject(g2_pt(71, 46, 11, 55)) == col_point(10),
{
    lemma_addition_7();
    lemma_wide_addition_25();
    lemma_double_0();
    lemma_double_1();
    lemma_double_2();
    lemma_double_3();
    lemma_double_4();
    lemma_double_5();
    lemma_double_6();
    lemma_cycle_steps(g2_pt(71, 46, 11, 55), g2_pt(31, 98, 39, 6), 57);
    G2Point::lemma_smul_steps_zero(g2_pt(71, 46, 11, 55), g2_pt(31, 98, 39, 6), 57);
    assert(G2Point::mul_steps_defined(g2_pt(71, 46, 11, 55), g2_pt(84, 54, 48, 91), 0, 58));
    assert(G2Point::mul_steps_defined(g2_pt(29, 87, 70, 40), g2_pt(18, 35, 17, 99), 1, 59));
    assert(G2Point::mul_steps_defined(g2_pt(29, 87, 70, 40), g2_pt(93, 48, 94, 99), 2, 60));
    assert(G2Point::mul_steps_defined(g2_pt(5, 72, 16, 44), g2_pt(18, 69, 94, 11), 5, 61));
    assert(G2Point::mul_steps_defined(G2Point::Infinity, g2_pt(5, 72, 16, 44), 11, 62));
    assert(G2Point::mul_steps_defined(G2Point::Infinity, g2_pt(38, 33, 61, 75), 22, 63));
    assert(G2Point::mul_steps_defined(G2Point::Infinity, g2_pt(0, 3, 9, 49), 44, 64));
    assert(G2Point::smul_steps(G2Point::Infinity, g2_pt(0, 3, 9, 49), 44, 64) == G2Point::smul_steps(G2Point::Infinity, g2_pt(38, 33, 61, 75), 22, 63));
    assert(G2Point::smul_steps(G2Point::Infinity, g2_pt(38, 33, 61, 75), 22, 63) == G2Point::smul_steps(G2Point::Infinity, g2_pt(5, 72, 16, 44), 11, 62));
    assert(G2Point::smul_steps(G2Point::Infinity, g2_pt(5, 72, 16, 44), 11, 62) == G2Point::smul_steps(g2_pt(5, 72, 16, 44), g2_pt(18, 69, 94, 11), 5, 61));
    assert(G2Point::smul_steps(g2_pt(5, 72, 16, 44), g2_pt(18, 69, 94, 11), 5, 61) == G2Point::smul_steps(g2_pt(29, 87, 70, 40), g2_pt(93, 48, 94, 99), 2, 60));
    assert(G2Point::smul_steps(g2_pt(29, 87, 70, 40), g2_pt(93, 48, 94, 99), 2, 60) == G2Point::smul_steps(g2_pt(29, 87, 70, 40), g2_pt(18, 35, 17, 99), 1, 59));
    assert(G2Point::smul_steps(g2_pt(29, 87, 70, 40), g2_pt(18, 35, 17, 99), 1, 59) == G2Point::smul_steps(g2_pt(71, 46, 11, 55), g2_pt(84, 54, 48, 91), 0, 58));
    assert(G2Point::smul_steps(g2_pt(71, 46, 11, 55), g2_pt(84, 54, 48, 91), 0, 58) == G2Point::smul_steps(g2_pt(71, 46, 11, 55), g2_pt(31, 98, 39, 6), 0, 57));
    crate::pairing_values::lemma_distort_at(71, 46, 11, 55, 26, 5, 56, 5);
    assert(col_point(10) == crate::pairing_values::g1p(26, 56));
}

/// `45 H` by double-and-add: defined, and mapped by `i -> 10` to `11 P`.
#[verifier::spinoff_prover]
proof fn lemma_wide_45()
    ensures
        G2Point::sgenerator().mul_defined(45),
        G2Point::sgenerator().smul(45) == g2_pt(80, 18, 17, 12),
        sproject(g2_pt(80, 18, 17, 12)) == col_point(11),
{
    lemma_addition_1();
    lemma_addition_8();
    lemma_wide_addition_26();
    lemma_double_0();
    lemma_double_1();
    lemma_double_2();
    lemma_double_3();
    lemma_double_4();
    lemma_double_5();
    lemma_double_6();
    lemma_cycle_steps(g2_pt(80, 18, 17, 12), g2_pt(31, 98, 39, 6), 57);
    G2Point::lemma_smul_steps_zero(g2_pt(80, 18, 17, 12), g2_pt(31, 98, 39, 6), 57);
    assert(G2Point::mul_steps_defined(g2_pt(80, 18, 17, 12), g2_pt(84, 54, 48, 91), 0, 58));
    assert(G2Point::mul_steps_defined(g2_pt(4, 46, 3, 36), g2_pt(18, 35, 17, 99), 1, 59));
    assert(G2Point::mul_steps_defined(g2_pt(4, 46, 3, 36), g2_pt(93, 48, 94, 99), 2, 60));
    assert(G2Point::mul_steps_defined(g2_pt(69, 33, 71, 86), g2_pt(18, 69, 94, 11), 5, 61));
    assert(G2Point::mul_steps_defined(g2_pt(0, 3, 9, 49), g2_pt(5, 72, 16, 44), 11, 62));
    assert(G2Point::mul_steps_defined(g2_pt(0, 3, 9, 49), g2_pt(38, 33, 61, 75), 22, 63));
    assert(G2Point::mul_steps_defined(G2Point::Infinity, g2_pt(0, 3, 9, 49), 45, 64));
    assert(G2Point::smul_steps(G2Point::Infinity, g2_pt(0, 3, 9, 49), 45, 64) == G2Point::smul_steps(g2_pt(0, 3, 9, 49), g2_pt(38, 33, 61, 75), 22, 63));
    assert(G2Point::smul_steps(g2_pt(0, 3, 9, 49), g2_pt(38, 33, 61, 75), 22, 63) == G2Point::smul_steps(g2_pt(0, 3, 9, 49), g2_pt(5, 72, 16, 44), 11, 62));
    assert(G2Point::smul_steps(g2_pt(0, 3, 9, 49), g2_pt(5, 72, 16, 44), 11, 62) == G2Point::smul_steps(g2_pt(69, 33, 71, 86), g2_pt(18, 69, 94, 11), 5, 61));
    assert(G2Point::smul_steps(g2_pt(69, 33, 71, 86), g2_pt(18, 69, 94, 11), 5, 61) == G2Point::smul_steps(g2_pt(4, 46, 3, 36), g2_pt(93, 48, 94, 99), 2, 60));
    assert(G2Point::smul_steps(g2_pt(4, 46, 3, 36), g2_pt(93, 48, 94, 99), 2, 60) == G2Point::smul_steps(g2_pt(4, 46, 3, 36), g2_pt(18, 35, 17, 99), 1, 59));
    assert(G2Point::smul_steps(g2_pt(4, 46, 3, 36), g2_pt(18, 35, 17, 99), 1, 59) == G2Point::smul_steps(g2_pt(80, 18, 17, 12), g2_pt(84, 54, 48, 91), 0, 58));
    assert(G2Point::smul_steps(g2_pt(80, 18, 17, 12), g2_pt(84, 54, 48, 91), 0, 58) == G2Point::smul_steps(g2_pt(80, 18, 17, 12), g2_pt(31, 98, 39, 6), 0, 57));
    crate::pairing_values::lemma_distort_at(80, 18, 17, 12, 58, 2, 36, 1);
    assert(col_point(11) == crate::pairing_values::g1p(58, 36));
}

/// `46 H` by double-and-add: defined, and mapped by `i -> 10` to `12 P`.
#[verifier::spinoff_prover]
proof fn lemma_wide_46()
    ensures
        G2Point::sgenerator().mul_defined(46),
        G2Point::sgenerator().smul(46) == g2_pt(16, 58, 74, 80),
        sproject(g2_pt(16, 58, 74, 80)) == col_point(12),
{
    lemma_addition_2();
    lemma_addition_9();
    lemma_wide_addition_27();
    lemma_double_0();
    lemma_double_1();
    lemma_double_2();
    lemma_double_3();
    lemma_double_4();
    lemma_double_5();
    lemma_double_6();
    lemma_cycle_steps(g2_pt(16, 58, 74, 80), g2_pt(31, 98, 39, 6), 57);
    G2Point::lemma_smul_steps_zero(g2_pt(16, 58, 74, 80), g2_pt(31, 98, 39, 6), 57);
    assert(G2Point::mul_steps_defined(g2_pt(16, 58, 74, 80), g2_pt(84, 54, 48, 91), 0, 58));
    assert(G2Point::mul_steps_defined(g2_pt(42, 100, 84, 16), g2_pt(18, 35, 17, 99), 1, 59));
    assert(G2Point::mul_steps_defined(g2_pt(42, 100, 84, 16), g2_pt(93, 48, 94, 99), 2, 60));
    assert(G2Point::mul_steps_defined(g2_pt(57, 46, 17, 52), g2_pt(18, 69, 94, 11), 5, 61));
    assert(G2Point::mul_steps_defined(g2_pt(38, 33, 61, 75), g2_pt(5, 72, 16, 44), 11, 62));
    assert(G2Point::mul_steps_defined(G2Point::Infinity, g2_pt(38, 33, 61, 75), 23, 63));
    assert(G2Point::mul_steps_defined(G2Point::Infinity, g2_pt(0, 3, 9, 49), 46, 64));
    assert(G2Point::smul_steps(G2Point::Infinity, g2_pt(0, 3, 9, 49), 46, 64) == G2Point::smul_steps(G2Point::Infinity, g2_pt(38, 33, 61, 75), 23, 63));
    assert(G2Point::smul_steps(G2Point::Infinity, g2_pt(38, 33, 61, 75), 23, 63) == G2Point::smul_steps(g2_pt(38, 33, 61, 75), g2_pt(5, 72, 16, 44), 11, 62));
    assert(G2Point::smul_steps(g2_pt(38, 33, 61, 75), g2_pt(5, 72, 16, 44), 11, 62) == G2Point::smul_steps(g2_pt(57, 46, 17, 52), g2_pt(18, 69, 94, 11), 5, 61));
    assert(G2Point::smul_steps(g2_pt(57, 46, 17, 52), g2_pt(18, 69, 94, 11), 5, 61) == G2Point::smul_steps(g2_pt(42, 100, 84, 16), g2_pt(93, 48, 94, 99), 2, 60));
    assert(G2Point::smul_steps(g2_pt(42, 100, 84, 16), g2_pt(93, 48, 94, 99), 2, 60) == G2Point::smul_steps(g2_pt(42, 100, 84, 16), g2_pt(18, 35, 17, 99), 1, 59));
    assert(G2Point::smul_steps(g2_pt(42, 100, 84, 16), g2_pt(18, 35, 17, 99), 1, 59) == G2Point::smul_steps(g2_pt(16, 58, 74, 80), g2_pt(84, 54, 48, 91), 0, 58));
    assert(G2Point::smul_steps(g2_pt(16, 58, 74, 80), g2_pt(84, 54, 48, 91), 0, 58) == G2Point::smul_steps(g2_pt(16, 58, 74, 80), g2_pt(31, 98, 39, 6), 0, 57));
    crate::pairing_values::lemma_distort_at(16, 58, 74, 80, 91, 5, 66, 8);
    assert(col_point(12) == crate::pairing_values::g1p(91, 66));
}

/// `47 H` by double-and-add: defined, and mapped by `i -> 10` to `13 P`.
#[verifier::spinoff_prover]
proof fn lemma_wide_47()
    ensures
        G2Point::sgenerator().mul_defined(47),
        G2Point::sgenerator().smul(47) == g2_pt(26, 64, 40, 2),
        sproject(g2_pt(26, 64, 40, 2)) == col_point(13),
{
    lemma_addition_0();
    lemma_addition_3();
    lemma_addition_10();
    lemma_wide_addition_28();
    lemma_double_0();
    lemma_double_1();
    lemma_double_2();
    lemma_double_3();
    lemma_double_4();
    lemma_double_5();
    lemma_double_6();
    lemma_cycle_steps(g2_pt(26, 64, 40, 2), g2_pt(31, 98, 39, 6), 57);
    G2Point::lemma_smul_steps_zero(g2_pt(26, 64, 40, 2), g2_pt(31, 98, 39, 6), 57);
    assert(G2Point::mul_steps_defined(g2_pt(26, 64, 40, 2), g2_pt(84, 54, 48, 91), 0, 58));
    assert(G2Point::mul_steps_defined(g2_pt(71, 14, 32, 68), g2_pt(18, 35, 17, 99), 1, 59));
    assert(G2Point::mul_steps_defined(g2_pt(71, 14, 32, 68), g2_pt(93, 48, 94, 99), 2, 60));
    assert(G2Point::mul_steps_defined(g2_pt(81, 47, 93, 16), g2_pt(18, 69, 94, 11), 5, 61));
    assert(G2Point::mul_steps_defined(g2_pt(19, 91, 88, 44), g2_pt(5, 72, 16, 44), 11, 62));
    assert(G2Point::mul_steps_defined(g2_pt(0, 3, 9, 49), g2_pt(38, 33, 61, 75), 23, 63));
    assert(G2Point::mul_steps_defined(G2Point::Infinity, g2_pt(0, 3, 9, 49), 47, 64));
    assert(G2Point::smul_steps(G2Point::Infinity, g2_pt(0, 3, 9, 49), 47, 64) == G2Point::smul_steps(g2_pt(0, 3, 9, 49), g2_pt(38, 33, 61, 75), 23, 63));
    assert(G2Point::smul_steps(g2_pt(0, 3, 9, 49), g2_pt(38, 33, 61, 75), 23, 63) == G2Point::smul_steps(g2_pt(19, 91, 88, 44), g2_pt(5, 72, 16, 44), 11, 62));
    assert(G2Point::smul_steps(g2_pt(19, 91, 88, 44), g2_pt(5, 72, 16, 44), 11, 62) == G2Point::smul_steps(g2_pt(81, 47, 93, 16), g2_pt(18, 69, 94, 11), 5, 61));
    assert(G2Point::smul_steps(g2_pt(81, 47, 93, 16), g2_pt(18, 69, 94, 11), 5, 61) == G2Point::smul_steps(g2_pt(71, 14, 32, 68), g2_pt(93, 48, 94, 99), 2, 60));
    assert(G2Point::smul_steps(g2_pt(71, 14, 32, 68), g2_pt(93, 48, 94, 99), 2, 60) == G2Point::smul_steps(g2_pt(71, 14, 32, 68), g2_pt(18, 35, 17, 99), 1, 59));
    assert(G2Point::smul_steps(g2_pt(71, 14, 32, 68), g2_pt(18, 35, 17, 99), 1, 59) == G2Point::smul_steps(g2_pt(26, 64, 40, 2), g2_pt(84, 54, 48, 91), 0, 58));
    assert(G2Point::smul_steps(g2_pt(26, 64, 40, 2), g2_pt(84, 54, 48, 91), 0, 58) == G2Point::smul_steps(g2_pt(26, 64, 40, 2), g2_pt(31, 98, 39, 6), 0, 57));
    crate::pairing_values::lemma_distort_at(26, 64, 40, 2, 60, 6, 60, 0);
    assert(col_point(13) == crate::pairing_values::g1p(60, 60));
}

/// `48 H` by double-and-add: defined, and mapped by `i -> 10` to `14 P`.
#[verifier::spinoff_prover]
proof fn lemma_wide_48()
    ensures
        G2Point::sgenerator().mul_defined(48),
        G2Point::sgenerator().smul(48) == g2_pt(25, 31, 96, 35),
        sproject(g2_pt(25, 31, 96, 35)) == col_point(14),
{
    lemma_wide_addition_29();
    lemma_double_0();
    lemma_double_1();
    lemma_double_2();
    lemma_double_3();
    lemma_double_4();
    lemma_double_5();
    lemma_double_6();
    lemma_cycle_steps(g2_pt(25, 31, 96, 35), g2_pt(31, 98, 39, 6), 57);
    G2Point::lemma_smul_steps_zero(g2_pt(25, 31, 96, 35), g2_pt(31, 98, 39, 6), 57);
    assert(G2Point::mul_steps_defined(g2_pt(25, 31, 96, 35), g2_pt(84, 54, 48, 91), 0, 58));
    assert(G2Point::mul_steps_defined(g2_pt(93, 48, 94, 99), g2_pt(18, 35, 17, 99), 1, 59));
    assert(G2Point::mul_steps_defined(G2Point::Infinity, g2_pt(93, 48, 94, 99), 3, 60));
    assert(G2Point::mul_steps_defined(G2Point::Infinity, g2_pt(18, 69, 94, 11), 6, 61));
    assert(G2Point::mul_steps_defined(G2Point::Infinity, g2_pt(5, 72, 16, 44), 12, 62));
    assert(G2Point::mul_steps_defined(G2Point::Infinity, g2_pt(38, 33, 61, 75), 24, 63));
    assert(G2Point::mul_steps_defined(G2Point::Infinity, g2_pt(0, 3, 9, 49), 48, 64));
    assert(G2Point::smul_steps(G2Point::Infinity, g2_pt(0, 3, 9, 49), 48, 64) == G2Point::smul_steps(G2Point::Infinity, g2_pt(38, 33, 61, 75), 24, 63));
    assert(G2Point::smul_steps(G2Point::Infinity, g2_pt(38, 33, 61, 75), 24, 63) == G2Point::smul_steps(G2Point::Infinity, g2_pt(5, 72, 16, 44), 12, 62));
    assert(G2Point::smul_steps(G2Point::Infinity, g2_pt(5, 72, 16, 44), 12, 62) == G2Point::smul_steps(G2Point::Infinity, g2_pt(18, 69, 94, 11), 6, 61));
    assert(G2Point::smul_steps(G2Point::Infinity, g2_pt(18, 69, 94, 11), 6, 61) == G2Point::smul_steps(G2Point::Infinity, g2_pt(93, 48, 94, 99), 3, 60));
    assert(G2Point::smul_steps(G2Point::Infinity, g2_pt(93, 48, 94, 99), 3, 60) == G2Point::smul_steps(g2_pt(93, 48, 94, 99), g2_pt(18, 35, 17, 99), 1, 59));
    assert(G2Point::smul_steps(g2_pt(93, 48, 94, 99), g2_pt(18, 35, 17, 99), 1, 59) == G2Point::smul_steps(g2_pt(25, 31, 96, 35), g2_pt(84, 54, 48, 91), 0, 58));
    assert(G2Point::smul_steps(g2_pt(25, 31, 96, 35), g2_pt(84, 54, 48, 91), 0, 58) == G2Point::smul_steps(g2_pt(25, 31, 96, 35), g2_pt(31, 98, 39, 6), 0, 57));
    crate::pairing_values::lemma_distort_at(25, 31, 96, 35, 32, 3, 42, 4);
    assert(col_point(14) == crate::pairing_values::g1p(32, 42));
}

/// `49 H` by double-and-add: defined, and mapped by `i -> 10` to `15 P`.
#[verifier::spinoff_prover]
proof fn lemma_wide_49()
    ensures
        G2Point::sgenerator().mul_defined(49),
        G2Point::sgenerator().smul(49) == g2_pt(10, 10, 44, 87),
        sproject(g2_pt(10, 10, 44, 87)) == col_point(15),
{
    lemma_wide_addition_0();
    lemma_wide_addition_30();
    lemma_double_0();
    lemma_double_1();
    lemma_double_2();
    lemma_double_3();
    lemma_double_4();
    lemma_double_5();
    lemma_double_6();
    lemma_cycle_steps(g2_pt(10, 10, 44, 87), g2_pt(31, 98, 39, 6), 57);
    G2Point::lemma_smul_steps_zero(g2_pt(10, 10, 44, 87), g2_pt(31, 98, 39, 6), 57);
    assert(G2Point::mul_steps_defined(g2_pt(10, 10, 44, 87), g2_pt(84, 54, 48, 91), 0, 58));
    assert(G2Point::mul_steps_defined(g2_pt(88, 97, 86, 52), g2_pt(18, 35, 17, 99), 1, 59));
    assert(G2Point::mul_steps_defined(g2_pt(0, 3, 9, 49), g2_pt(93, 48, 94, 99), 3, 60));
    assert(G2Point::mul_steps_defined(g2_pt(0, 3, 9, 49), g2_pt(18, 69, 94, 11), 6, 61));
    assert(G2Point::mul_steps_defined(g2_pt(0, 3, 9, 49), g2_pt(5, 72, 16, 44), 12, 62));
    assert(G2Point::mul_steps_defined(g2_pt(0, 3, 9, 49), g2_pt(38, 33, 61, 75), 24, 63));
    assert(G2Point::mul_steps_defined(G2Point::Infinity, g2_pt(0, 3, 9, 49), 49, 64));
    assert(G2Point::smul_steps(G2Point::Infinity, g2_pt(0, 3, 9, 49), 49, 64) == G2Point::smul_steps(g2_pt(0, 3, 9, 49), g2_pt(38, 33, 61, 75), 24, 63));
    assert(G2Point::smul_steps(g2_pt(0, 3, 9, 49), g2_pt(38, 33, 61, 75), 24, 63) == G2Point::smul_steps(g2_pt(0, 3, 9, 49), g2_pt(5, 72, 16, 44), 12, 62));
    assert(G2Point::smul_steps(g2_pt(0, 3, 9, 49), g2_pt(5, 72, 16, 44), 12, 62) == G2Point::smul_steps(g2_pt(0, 3, 9, 49), g2_pt(18, 69, 94, 11), 6, 61));
    assert(G2Point::smul_steps(g2_pt(0, 3, 9, 49), g2_pt(18, 69, 94, 11), 6, 61) == G2Point::smul_steps(g2_pt(0, 3, 9, 49), g2_pt(93, 48, 94, 99), 3, 60));
    assert(G2Point::smul_steps(g2_pt(0, 3, 9, 49), g2_pt(93, 48, 94, 99), 3, 60) == G2Point::smul_steps(g2_pt(88, 97, 86, 52), g2_pt(18, 35, 17, 99), 1, 59));
    assert(G2Point::smul_steps(g2_pt(88, 97, 86, 52), g2_pt(18, 35, 17, 99), 1, 59) == G2Point::smul_steps(g2_pt(10, 10, 44, 87), g2_pt(84, 54, 48, 91), 0, 58));
    assert(G2Point::smul_steps(g2_pt(10, 10, 44, 87), g2_pt(84, 54, 48, 91), 0, 58) == G2Point::smul_steps(g2_pt(10, 10, 44, 87), g2_pt(31, 98, 39, 6), 0, 57));
    crate::pairing_values::lemma_distort_at(10, 10, 44, 87, 9, 1, 5, 9);
    assert(col_point(15) == crate::pairing_values::g1p(9, 5));
}

/// `50 H` by double-and-add: defined, and mapped by `i -> 10` to `16 P`.
#[verifier::spinoff_prover]
proof fn lemma_wide_50()
    ensures
        G2Point::sgenerator().mul_defined(50),
        G2Point::sgenerator().smul(50) == g2_pt(19, 15, 25, 15),
        sproject(g2_pt(19, 15, 25, 15)) == col_point(16),
{
    lemma_wide_addition_1();
    lemma_wide_addition_31();
    lemma_double_0();
    lemma_double_1();
    lemma_double_2();
    lemma_double_3();
    lemma_double_4();
    lemma_double_5();
    lemma_double_6();
    lemma_cycle_steps(g2_pt(19, 15, 25, 15), g2_pt(31, 98, 39, 6), 57);
    G2Point::lemma_smul_steps_zero(g2_pt(19, 15, 25, 15), g2_pt(31, 98, 39, 6), 57);
    assert(G2Point::mul_steps_defined(g2_pt(19, 15, 25, 15), g2_pt(84, 54, 48, 91), 0, 58));
    assert(G2Point::mul_steps_defined(g2_pt(47, 93, 36, 90), g2_pt(18, 35, 17, 99), 1, 59));
    assert(G2Point::mul_steps_defined(g2_pt(38, 33, 61, 75), g2_pt(93, 48, 94, 99), 3, 60));
    assert(G2Point::mul_steps_defined(g2_pt(38, 33, 61, 75), g2_pt(18, 69, 94, 11), 6, 61));
    assert(G2Point::mul_steps_defined(g2_pt(38, 33, 61, 75), g2_pt(5, 72, 16, 44), 12, 62));
    assert(G2Point::mul_steps_defined(G2Point::Infinity, g2_pt(38, 33, 61, 75), 25, 63));
    assert(G2Point::mul_steps_defined(G2Point::Infinity, g2_pt(0, 3, 9, 49), 50, 64));
    assert(G2Point::smul_steps(G2Point::Infinity, g2_pt(0, 3, 9, 49), 50, 64) == G2Point::smul_steps(G2Point::Infinity, g2_pt(38, 33, 61, 75), 25, 63));
    assert(G2Point::smul_steps(G2Point::Infinity, g2_pt(38, 33, 61, 75), 25, 63) == G2Point::smul_steps(g2_pt(38, 33, 61, 75), g2_pt(5, 72, 16, 44), 12, 62));
    assert(G2Point::smul_steps(g2_pt(38, 33, 61, 75), g2_pt(5, 72, 16, 44), 12, 62) == G2Point::smul_steps(g2_pt(38, 33, 61, 75), g2_pt(18, 69, 94, 11), 6, 61));
    assert(G2Point::smul_steps(g2_pt(38, 33, 61, 75), g2_pt(18, 69, 94, 11), 6, 61) == G2Point::smul_steps(g2_pt(38, 33, 61, 75), g2_pt(93, 48, 94, 99), 3, 60));
    assert(G2Point::smul_steps(g2_pt(38, 33, 61, 75), g2_pt(93, 48, 94, 99), 3, 60) == G2Point::smul_steps(g2_pt(47, 93, 36, 90), g2_pt(18, 35, 17, 99), 1, 59));
    assert(G2Point::smul_steps(g2_pt(47, 93, 36, 90), g2_pt(18, 35, 17, 99), 1, 59) == G2Point::smul_steps(g2_pt(19, 15, 25, 15), g2_pt(84, 54, 48, 91), 0, 58));
    assert(G2Point::smul_steps(g2_pt(19, 15, 25, 15), g2_pt(84, 54, 48, 91), 0, 58) == G2Point::smul_steps(g2_pt(19, 15, 25, 15), g2_pt(31, 98, 39, 6), 0, 57));
    crate::pairing_values::lemma_distort_at(19, 15, 25, 15, 68, 1, 74, 1);
    assert(col_point(16) == crate::pairing_values::g1p(68, 74));
}

/// `52 H` by double-and-add: defined, and mapped by `i -> 10` to `18 P`.
#[verifier::spinoff_prover]
proof fn lemma_wide_52()
    ensures
        G2Point::sgenerator().mul_defined(52),
        G2Point::sgenerator().smul(52) == g2_pt(19, 15, 76, 86),
        sproject(g2_pt(19, 15, 76, 86)) == col_point(18),
{
    lemma_wide_addition_3();
    lemma_wide_addition_32();
    lemma_double_0();
    lemma_double_1();
    lemma_double_2();
    lemma_double_3();
    lemma_double_4();
    lemma_double_5();
    lemma_double_6();
    lemma_cycle_steps(g2_pt(19, 15, 76, 86), g2_pt(31, 98, 39, 6), 57);
    G2Point::lemma_smul_steps_zero(g2_pt(19, 15, 76, 86), g2_pt(31, 98, 39, 6), 57);
    assert(G2Point::mul_steps_defined(g2_pt(19, 15, 76, 86), g2_pt(84, 54, 48, 91), 0, 58));
    assert(G2Point::mul_steps_defined(g2_pt(88, 55, 22, 34), g2_pt(18, 35, 17, 99), 1, 59));
    assert(G2Point::mul_steps_defined(g2_pt(5, 72, 16, 44), g2_pt(93, 48, 94, 99), 3, 60));
    assert(G2Point::mul_steps_defined(g2_pt(5, 72, 16, 44), g2_pt(18, 69, 94, 11), 6, 61));
    assert(G2Point::mul_steps_defined(G2Point::Infinity, g2_pt(5, 72, 16, 44), 13, 62));
    assert(G2Point::mul_steps_defined(G2Point::Infinity, g2_pt(38, 33, 61, 75), 26, 63));
    assert(G2Point::mul_steps_defined(G2Point::Infinity, g2_pt(0, 3, 9, 49), 52, 64));
    assert(G2Point::smul_steps(G2Point::Infinity, g2_pt(0, 3, 9, 49), 52, 64) == G2Point::smul_steps(G2Point::Infinity, g2_pt(38, 33, 61, 75), 26, 63));
    assert(G2Point::smul_steps(G2Point::Infinity, g2_pt(38, 33, 61, 75), 26, 63) == G2Point::smul_steps(G2Point::Infinity, g2_pt(5, 72, 16, 44), 13, 62));
    assert(G2Point::smul_steps(G2Point::Infinity, g2_pt(5, 72, 16, 44), 13, 62) == G2Point::smul_steps(g2_pt(5, 72, 16, 44), g2_pt(18, 69, 94, 11), 6, 61));
    assert(G2Point::smul_steps(g2_pt(5, 72, 16, 44), g2_pt(18, 69, 94, 11), 6, 61) == G2Point::smul_steps(g2_pt(5, 72, 16, 44), g2_pt(93, 48, 94, 99), 3, 60));
    assert(G2Point::smul_steps(g2_pt(5, 72, 16, 44), g2_pt(93, 48, 94, 99), 3, 60) == G2Point::smul_steps(g2_pt(88, 55, 22, 34), g2_pt(18, 35, 17, 99), 1, 59));
    assert(G2Point::smul_steps(g2_pt(88, 55, 22, 34), g2_pt(18, 35, 17, 99), 1, 59) == G2Point::smul_steps(g2_pt(19, 15, 76, 86), g2_pt(84, 54, 48, 91), 0, 58));
    assert(G2Point::smul_steps(g2_pt(19, 15, 76, 86), g2_pt(84, 54, 48, 91), 0, 58) == G2Point::smul_steps(g2_pt(19, 15, 76, 86), g2_pt(31, 98, 39, 6), 0, 57));
    crate::pairing_values::lemma_distort_at(19, 15, 76, 86, 68, 1, 27, 9);
    assert(col_point(18) == crate::pairing_values::g1p(68, 27));
}

/// `53 H` by double-and-add: defined, and mapped by `i -> 10` to `19 P`.
#[verifier::spinoff_prover]
proof fn lemma_wide_53()
    ensures
        G2Point::sgenerator().mul_defined(53),
        G2Point::sgenerator().smul(53) == g2_pt(10, 10, 57, 14),
        sproject(g2_pt(10, 10, 57, 14)) == col_point(19),
{
    lemma_addition_1();
    lemma_wide_addition_4();
    lemma_wide_addition_33();
    lemma_double_0();
    lemma_double_1();
    lemma_double_2();
    lemma_double_3();
    lemma_double_4();
    lemma_double_5();
    lemma_double_6();
    lemma_cycle_steps(g2_pt(10, 10, 57, 14), g2_pt(31, 98, 39, 6), 57);
    G2Point::lemma_smul_steps_zero(g2_pt(10, 10, 57, 14), g2_pt(31, 98, 39, 6), 57);
    assert(G2Point::mul_steps_defined(g2_pt(10, 10, 57, 14), g2_pt(84, 54, 48, 91), 0, 58));
    assert(G2Point::mul_steps_defined(g2_pt(36, 63, 55, 39), g2_pt(18, 35, 17, 99), 1, 59));
    assert(G2Point::mul_steps_defined(g2_pt(69, 33, 71, 86), g2_pt(93, 48, 94, 99), 3, 60));
    assert(G2Point::mul_steps_defined(g2_pt(69, 33, 71, 86), g2_pt(18, 69, 94, 11), 6, 61));
    assert(G2Point::mul_steps_defined(g2_pt(0, 3, 9, 49), g2_pt(5, 72, 16, 44), 13, 62));
    assert(G2Point::mul_steps_defined(g2_pt(0, 3, 9, 49), g2_pt(38, 33, 61, 75), 26, 63));
    assert(G2Point::mul_steps_defined(G2Point::Infinity, g2_pt(0, 3, 9, 49), 53, 64));
    assert(G2Point::smul_steps(G2Point::Infinity, g2_pt(0, 3, 9, 49), 53, 64) == G2Point::smul_steps(g2_pt(0, 3, 9, 49), g2_pt(38, 33, 61, 75), 26, 63));
    assert(G2Point::smul_steps(g2_pt(0, 3, 9, 49), g2_pt(38, 33, 61, 75), 26, 63) == G2Point::smul_steps(g2_pt(0, 3, 9, 49), g2_pt(5, 72, 16, 44), 13, 62));
    assert(G2Point::smul_steps(g2_pt(0, 3, 9, 49), g2_pt(5, 72, 16, 44), 13, 62) == G2Point::smul_steps(g2_pt(69, 33, 71, 86), g2_pt(18, 69, 94, 11), 6, 61));
    assert(G2Point::smul_steps(g2_pt(69, 33, 71, 86), g2_pt(18, 69, 94, 11), 6, 61) == G2Point::smul_steps(g2_pt(69, 33, 71, 86), g2_pt(93, 48, 94, 99), 3, 60));
    assert(G2Point::smul_steps(g2_pt(69, 33, 71, 86), g2_pt(93, 48, 94, 99), 3, 60) == G2Point::smul_steps(g2_pt(36, 63, 55, 39), g2_pt(18, 35, 17, 99), 1, 59));
    assert(G2Point::smul_steps(g2_pt(36, 63, 55, 39), g2_pt(18, 35, 17, 99), 1, 59) == G2Point::smul_steps(g2_pt(10, 10, 57, 14), g2_pt(84, 54, 48, 91), 0, 58));
    assert(G2Point::smul_steps(g2_pt(10, 10, 57, 14), g2_pt(84, 54, 48, 91), 0, 58) == G2Point::smul_steps(g2_pt(10, 10, 57, 14), g2_pt(31, 98, 39, 6), 0, 57));
    crate::pairing_values::lemma_distort_at(10, 10, 57, 14, 9, 1, 96, 1);
    assert(col_point(19) == crate::pairing_values::g1p(9, 96));
}

/// `54 H` by double-and-add: defined, and mapped by `i -> 10` to `20 P`.
#[verifier::spinoff_prover]
proof fn lemma_wide_54()
    ensures
        G2Point::sgenerator().mul_defined(54),
        G2Point::sgenerator().smul(54) == g2_pt(25, 31, 5, 66),
        sproject(g2_pt(25, 31, 5, 66)) == col_point(20),
{
    lemma_addition_2();
    lemma_wide_addition_5();
    lemma_wide_addition_34();
    lemma_double_0();
    lemma_double_1();
    lemma_double_2();
    lemma_double_3();
    lemma_double_4();
    lemma_double_5();
    lemma_double_6();
    lemma_cycle_steps(g2_pt(25, 31, 5, 66), g2_pt(31, 98, 39, 6), 57);
    G2Point::lemma_smul_steps_zero(g2_pt(25, 31, 5, 66), g2_pt(31, 98, 39, 6), 57);
    assert(G2Point::mul_steps_defined(g2_pt(25, 31, 5, 66), g2_pt(84, 54, 48, 91), 0, 58));
    assert(G2Point::mul_steps_defined(g2_pt(61, 3, 63, 78), g2_pt(18, 35, 17, 99), 1, 59));
    assert(G2Point::mul_steps_defined(g2_pt(57, 46, 17, 52), g2_pt(93, 48, 94, 99), 3, 60));
    assert(G2Point::mul_steps_defined(g2_pt(57, 46, 17, 52), g2_pt(18, 69, 94, 11), 6, 61));
    assert(G2Point::mul_steps_defined(g2_pt(38, 33, 61, 75), g2_pt(5, 72, 16, 44), 13, 62));
    assert(G2Point::mul_steps_defined(G2Point::Infinity, g2_pt(38, 33, 61, 75), 27, 63));
    assert(G2Point::mul_steps_defined(G2Point::Infinity, g2_pt(0, 3, 9, 49), 54, 64));
    assert(G2Point::smul_steps(G2Point::Infinity, g2_pt(0, 3, 9, 49), 54, 64) == G2Point::smul_steps(G2Point::Infinity, g2_pt(38, 33, 61, 75), 27, 63));
    assert(G2Point::smul_steps(G2Point::Infinity, g2_pt(38, 33, 61, 75), 27, 63) == G2Point::smul_steps(g2_pt(38, 33, 61, 75), g2_pt(5, 72, 16, 44), 13, 62));
    assert(G2Point::smul_steps(g2_pt(38, 33, 61, 75), g2_pt(5, 72, 16, 44), 13, 62) == G2Point::smul_steps(g2_pt(57, 46, 17, 52), g2_pt(18, 69, 94, 11), 6, 61));
    assert(G2Point::smul_steps(g2_pt(57, 46, 17, 52), g2_pt(18, 69, 94, 11), 6, 61) == G2Point::smul_steps(g2_pt(57, 46, 17, 52), g2_pt(93, 48, 94, 99), 3, 60));
    assert(G2Point::smul_steps(g2_pt(57, 46, 17, 52), g2_pt(93, 48, 94, 99), 3, 60) == G2Point::smul_steps(g2_pt(61, 3, 63, 78), g2_pt(18, 35, 17, 99), 1, 59));
    assert(G2Point::smul_steps(g2_pt(61, 3, 63, 78), g2_pt(18, 35, 17, 99), 1, 59) == G2Point::smul_steps(g2_pt(25, 31, 5, 66), g2_pt(84, 54, 48, 91), 0, 58));
    assert(G2Point::smul_steps(g2_pt(25, 31, 5, 66), g2_pt(84, 54, 48, 91), 0, 58) == G2Point::smul_steps(g2_pt(25, 31, 5, 66), g2_pt(31, 98, 39, 6), 0, 57));
    crate::pairing_values::lemma_distort_at(25, 31, 5, 66, 32, 3, 59, 6);
    assert(col_point(20) == crate::pairing_values::g1p(32, 59));
}

/// `55 H` by double-and-add: defined, and mapped by `i -> 10` to `21 P`.
#[verifier::spinoff_prover]
proof fn lemma_wide_55()
    ensures
        G2Point::sgenerator().mul_defined(55),
        G2Point::sgenerator().smul(55) == g2_pt(26, 64, 61, 99),
        sproject(g2_pt(26, 64, 61, 99)) == col_point(21),
{
    lemma_addition_0();
    lemma_addition_3();
    lemma_wide_addition_6();
    lemma_wide_addition_35();
    lemma_double_0();
    lemma_double_1();
    lemma_double_2();
    lemma_double_3();
    lemma_double_4();
    lemma_double_5();
    lemma_double_6();
    lemma_cycle_steps(g2_pt(26, 64, 61, 99), g2_pt(31, 98, 39, 6), 57);
    G2Point::lemma_smul_steps_zero(g2_pt(26, 64, 61, 99), g2_pt(31, 98, 39, 6), 57);
    assert(G2Point::mul_steps_defined(g2_pt(26, 64, 61, 99), g2_pt(84, 54, 48, 91), 0, 58));
    assert(G2Point::mul_steps_defined(g2_pt(5, 76, 13, 86), g2_pt(18, 35, 17, 99), 1, 59));
    assert(G2Point::mul_steps_defined(g2_pt(81, 47, 93, 16), g2_pt(93, 48, 94, 99), 3, 60));
    assert(G2Point::mul_steps_defined(g2_pt(81, 47, 93, 16), g2_pt(18, 69, 94, 11), 6, 61));
    assert(G2Point::mul_steps_defined(g2_pt(19, 91, 88, 44), g2_pt(5, 72, 16, 44), 13, 62));
    assert(G2Point::mul_steps_defined(g2_pt(0, 3, 9, 49), g2_pt(38, 33, 61, 75), 27, 63));
    assert(G2Point::mul_steps_defined(G2Point::Infinity, g2_pt(0, 3, 9, 49), 55, 64));
    assert(G2Point::smul_steps(G2Point::Infinity, g2_pt(0, 3, 9, 49), 55, 64) == G2Point::smul_steps(g2_pt(0, 3, 9, 49), g2_pt(38, 33, 61, 75), 27, 63));
    assert(G2Point::smul_steps(g2_pt(0, 3, 9, 49), g2_pt(38, 33, 61, 75), 27, 63) == G2Point::smul_steps(g2_pt(19, 91, 88, 44), g2_pt(5, 72, 16, 44), 13, 62));
    assert(G2Point::smul_steps(g2_pt(19, 91, 88, 44), g2_pt(5, 72, 16, 44), 13, 62) == G2Point::smul_steps(g2_pt(81, 47, 93, 16), g2_pt(18, 69, 94, 11), 6, 61));
    assert(G2Point::smul_steps(g2_pt(81, 47, 93, 16), g2_pt(18, 69, 94, 11), 6, 61) == G2Point::smul_steps(g2_pt(81, 47, 93, 16), g2_pt(93, 48, 94, 99), 3, 60));
    assert(G2Point::smul_steps(g2_pt(81, 47, 93, 16), g2_pt(93, 48, 94, 99), 3, 60) == G2Point::smul_steps(g2_pt(5, 76, 13, 86), g2_pt(18, 35, 17, 99), 1, 59));
    assert(G2Point::smul_steps(g2_pt(5, 76, 13, 86), g2_pt(18, 35, 17, 99), 1, 59) == G2Point::smul_steps(g2_pt(26, 64, 61, 99), g2_pt(84, 54, 48, 91), 0, 58));
    assert(G2Point::smul_steps(g2_pt(26, 64, 61, 99), g2_pt(84, 54, 48, 91), 0, 58) == G2Point::smul_steps(g2_pt(26, 64, 61, 99), g2_pt(31, 98, 39, 6), 0, 57));
    crate::pairing_values::lemma_distort_at(26, 64, 61, 99, 60, 6, 41, 10);
    assert(col_point(21) == crate::pairing_values::g1p(60, 41));
}

/// `56 H` by double-and-add: defined, and mapped by `i -> 10` to `22 P`.
#[verifier::spinoff_prover]
proof fn lemma_wide_56()
    ensures
        G2Point::sgenerator().mul_defined(56),
        G2Point::sgenerator().smul(56) == g2_pt(16, 58, 27, 21),
        sproject(g2_pt(16, 58, 27, 21)) == col_point(22),
{
    lemma_wide_addition_7();
    lemma_wide_addition_36();
    lemma_double_0();
    lemma_double_1();
    lemma_double_2();
    lemma_double_3();
    lemma_double_4();
    lemma_double_5();
    lemma_double_6();
    lemma_cycle_steps(g2_pt(16, 58, 27, 21), g2_pt(31, 98, 39, 6), 57);
    G2Point::lemma_smul_steps_zero(g2_pt(16, 58, 27, 21), g2_pt(31, 98, 39, 6), 57);
    assert(G2Point::mul_steps_defined(g2_pt(16, 58, 27, 21), g2_pt(84, 54, 48, 91), 0, 58));
    assert(G2Point::mul_steps_defined(g2_pt(96, 94, 21, 63), g2_pt(18, 35, 17, 99), 1, 59));
    assert(G2Point::mul_steps_defined(g2_pt(18, 69, 94, 11), g2_pt(93, 48, 94, 99), 3, 60));
    assert(G2Point::mul_steps_defined(G2Point::Infinity, g2_pt(18, 69, 94, 11), 7, 61));
    assert(G2Point::mul_steps_defined(G2Point::Infinity, g2_pt(5, 72, 16, 44), 14, 62));
    assert(G2Point::mul_steps_defined(G2Point::Infinity, g2_pt(38, 33, 61, 75), 28, 63));
    assert(G2Point::mul_steps_defined(G2Point::Infinity, g2_pt(0, 3, 9, 49), 56, 64));
    assert(G2Point::smul_steps(G2Point::Infinity, g2_pt(0, 3, 9, 49), 56, 64) == G2Point::smul_steps(G2Point::Infinity, g2_pt(38, 33, 61, 75), 28, 63));
    assert(G2Point::smul_steps(G2Point::Infinity, g2_pt(38, 33, 61, 75), 28, 63) == G2Point::smul_steps(G2Point::Infinity, g2_pt(5, 72, 16, 44), 14, 62));
    assert(G2Point::smul_steps(G2Point::Infinity, g2_pt(5, 72, 16, 44), 14, 62) == G2Point::smul_steps(G2Point::Infinity, g2_pt(18, 69, 94, 11), 7, 61));
    assert(G2Point::smul_steps(G2Point::Infinity, g2_pt(18, 69, 94, 11), 7, 61) == G2Point::smul_steps(g2_pt(18, 69, 94, 11), g2_pt(93, 48, 94, 99), 3, 60));
    assert(G2Point::smul_steps(g2_pt(18, 69, 94, 11), g2_pt(93, 48, 94, 99), 3, 60) == G2Point::smul_steps(g2_pt(96, 94, 21, 63), g2_pt(18, 35, 17, 99), 1, 59));
    assert(G2Point::smul_steps(g2_pt(96, 94, 21, 63), g2_pt(18, 35, 17, 99), 1, 59) == G2Point::smul_steps(g2_pt(16, 58, 27, 21), g2_pt(84, 54, 48, 91), 0, 58));
    assert(G2Point::smul_steps(g2_pt(16, 58, 27, 21), g2_pt(84, 54, 48, 91), 0, 58) == G2Point::smul_steps(g2_pt(16, 58, 27, 21), g2_pt(31, 98, 39, 6), 0, 57));
    crate::pairing_values::lemma_distort_at(16, 58, 27, 21, 91, 5, 35, 2);
    assert(col_point(22) == crate::pairing_values::g1p(91, 35));
}

/// `57 H` by double-and-add: defined, and mapped by `i -> 10` to `23 P`.
#[verifier::spinoff_prover]
proof fn lemma_wide_57()
    ensures
        G2Point::sgenerator().mul_defined(57),
        G2Point::sgenerator().smul(57) == g2_pt(80, 18, 84, 89),
        sproject(g2_pt(80, 18, 84, 89)) == col_point(23),
{
    lemma_addition_4();
    lemma_wide_addition_8();
    lemma_wide_addition_37();
    lemma_double_0();
    lemma_double_1();
    lemma_double_2();
    lemma_double_3();
    lemma_double_4();
    lemma_double_5();
    lemma_double_6();
    lemma_cycle_steps(g2_pt(80, 18, 84, 89), g2_pt(31, 98, 39, 6), 57);
    G2Point::lemma_smul_steps_zero(g2_pt(80, 18, 84, 89), g2_pt(31, 98, 39, 6), 57);
    assert(G2Point::mul_steps_defined(g2_pt(80, 18, 84, 89), g2_pt(84, 54, 48, 91), 0, 58));
    assert(G2Point::mul_steps_defined(g2_pt(68, 31, 10, 9), g2_pt(18, 35, 17, 99), 1, 59));
    assert(G2Point::mul_steps_defined(g2_pt(83, 80, 84, 22), g2_pt(93, 48, 94, 99), 3, 60));
    assert(G2Point::mul_steps_defined(g2_pt(0, 3, 9, 49), g2_pt(18, 69, 94, 11), 7, 61));
    assert(G2Point::mul_steps_defined(g2_pt(0, 3, 9, 49), g2_pt(5, 72, 16, 44), 14, 62));
    assert(G2Point::mul_steps_defined(g2_pt(0, 3, 9, 49), g2_pt(38, 33, 61, 75), 28, 63));
    assert(G2Point::mul_steps_defined(G2Point::Infinity, g2_pt(0, 3, 9, 49), 57, 64));
    assert(G2Point::smul_steps(G2Point::Infinity, g2_pt(0, 3, 9, 49), 57, 64) == G2Point::smul_steps(g2_pt(0, 3, 9, 49), g2_pt(38, 33, 61, 75), 28, 63));
    assert(G2Point::smul_steps(g2_pt(0, 3, 9, 49), g2_pt(38, 33, 61, 75), 28, 63) == G2Point::smul_steps(g2_pt(0, 3, 9, 49), g2_pt(5, 72, 16, 44), 14, 62));
    assert(G2Point::smul_steps(g2_pt(0, 3, 9, 49), g2_pt(5, 72, 16, 44), 14, 62) == G2Point::smul_steps(g2_pt(0, 3, 9, 49), g2_pt(18, 69, 94, 11), 7, 61));
    assert(G2Point::smul_steps(g2_pt(0, 3, 9, 49), g2_pt(18, 69, 94, 11), 7, 61) == G2Point::smul_steps(g2_pt(83, 80, 84, 22), g2_pt(93, 48, 94, 99), 3, 60));
    assert(G2Point::smul_steps(g2_pt(83, 80, 84, 22), g2_pt(93, 48, 94, 99), 3, 60) == G2Point::smul_steps(g2_pt(68, 31, 10, 9), g2_pt(18, 35, 17, 99), 1, 59));
    assert(G2Point::smul_steps(g2_pt(68, 31, 10, 9), g2_pt(18, 35, 17, 99), 1, 59) == G2Point::smul_steps(g2_pt(80, 18, 84, 89), g2_pt(84, 54, 48, 91), 0, 58));
    assert(G2Point::smul_steps(g2_pt(80, 18, 84, 89), g2_pt(84, 54, 48, 91), 0, 58) == G2Point::smul_steps(g2_pt(80, 18, 84, 89), g2_pt(31, 98, 39, 6), 0, 57));
    crate::pairing_values::lemma_distort_at(80, 18, 84, 89, 58, 2, 65, 9);
    assert(col_point(23) == crate::pairing_values::g1p(58, 65));
}

/// `58 H` by double-and-add: defined, and mapped by `i -> 10` to `24 P`.
#[verifier::spinoff_prover]
proof fn lemma_wide_58()
    ensures
        G2Point::sgenerator().mul_defined(58),
        G2Point::sgenerator().smul(58) == g2_pt(71, 46, 90, 46),
        sproject(g2_pt(71, 46, 90, 46)) == col_point(24),
{
    lemma_addition_5();
    lemma_wide_addition_9();
    lemma_wide_addition_38();
    lemma_double_0();
    lemma_double_1();
    lemma_double_2();
    lemma_double_3();
    lemma_double_4();
    lemma_double_5();
    lemma_double_6();
    lemma_cycle_steps(g2_pt(71, 46, 90, 46), g2_pt(31, 98, 39, 6), 57);
    G2Point::lemma_smul_steps_zero(g2_pt(71, 46, 90, 46), g2_pt(31, 98, 39, 6), 57);
    assert(G2Point::mul_steps_defined(g2_pt(71, 46, 90, 46), g2_pt(84, 54, 48, 91), 0, 58));
    assert(G2Point::mul_steps_defined(g2_pt(31, 98, 39, 6), g2_pt(18, 35, 17, 99), 1, 59));
    assert(G2Point::mul_steps_defined(g2_pt(65, 87, 47, 11), g2_pt(93, 48, 94, 99), 3, 60));
    assert(G2Point::mul_steps_defined(g2_pt(38, 33, 61, 75), g2_pt(18, 69, 94, 11), 7, 61));
    assert(G2Point::mul_steps_defined(g2_pt(38, 33, 61, 75), g2_pt(5, 72, 16, 44), 14, 62));
    assert(G2Point::mul_steps_defined(G2Point::Infinity, g2_pt(38, 33, 61, 75), 29, 63));
    assert(G2Point::mul_steps_defined(G2Point::Infinity, g2_pt(0, 3, 9, 49), 58, 64));
    assert(G2Point::smul_steps(G2Point::Infinity, g2_pt(0, 3, 9, 49), 58, 64) == G2Point::smul_steps(G2Point::Infinity, g2_pt(38, 33, 61, 75), 29, 63));
    assert(G2Point::smul_steps(G2Point::Infinity, g2_pt(38, 33, 61, 75), 29, 63) == G2Point::smul_steps(g2_pt(38, 33, 61, 75), g2_pt(5, 72, 16, 44), 14, 62));
    assert(G2Point::smul_steps(g2_pt(38, 33, 61, 75), g2_pt(5, 72, 16, 44), 14, 62) == G2Point::smul_steps(g2_pt(38, 33, 61, 75), g2_pt(18, 69, 94, 11), 7, 61));
    assert(G2Point::smul_steps(g2_pt(38, 33, 61, 75), g2_pt(18, 69, 94, 11), 7, 61) == G2Point::smul_steps(g2_pt(65, 87, 47, 11), g2_pt(93, 48, 94, 99), 3, 60));
    assert(G2Point::smul_steps(g2_pt(65, 87, 47, 11), g2_pt(93, 48, 94, 99), 3, 60) == G2Point::smul_steps(g2_pt(31, 98, 39, 6), g2_pt(18, 35, 17, 99), 1, 59));
    assert(G2Point::smul_steps(g2_pt(31, 98, 39, 6), g2_pt(18, 35, 17, 99), 1, 59) == G2Point::smul_steps(g2_pt(71, 46, 90, 46), g2_pt(84, 54, 48, 91), 0, 58));
    assert(G2Point::smul_steps(g2_pt(71, 46, 90, 46), g2_pt(84, 54, 48, 91), 0, 58) == G2Point::smul_steps(g2_pt(71, 46, 90, 46), g2_pt(31, 98, 39, 6), 0, 57));
    crate::pairing_values::lemma_distort_at(71, 46, 90, 46, 26, 5, 45, 5);
    assert(col_point(24) == crate::pairing_values::g1p(26, 45));
}

/// `59 H` by double-and-add: defined, and mapped by `i -> 10` to `25 P`.
#[verifier::spinoff_prover]
proof fn lemma_wide_59()
    ensures
        G2Point::sgenerator().mul_defined(59),
        G2Point::sgenerator().smul(59) == g2_pt(55, 2, 42, 26),
        sproject(g2_pt(55, 2, 42, 26)) == col_point(25),
{
    lemma_addition_0();
    lemma_addition_6();
    lemma_wide_addition_10();
    lemma_wide_addition_39();
    lemma_double_0();
    lemma_double_1();
    lemma_double_2();
    lemma_double_3();
    lemma_double_4();
    lemma_double_5();
    lemma_double_6();
    lemma_cycle_steps(g2_pt(55, 2, 42, 26), g2_pt(31, 98, 39, 6), 57);
    G2Point::lemma_smul_steps_zero(g2_pt(55, 2, 42, 26), g2_pt(31, 98, 39, 6), 57);
    assert(G2Point::mul_steps_defined(g2_pt(55, 2, 42, 26), g2_pt(84, 54, 48, 91), 0, 58));
    assert(G2Point::mul_steps_defined(g2_pt(5, 95, 77, 68), g2_pt(18, 35, 17, 99), 1, 59));
    assert(G2Point::mul_steps_defined(g2_pt(61, 30, 84, 76), g2_pt(93, 48, 94, 99), 3, 60));
    assert(G2Point::mul_steps_defined(g2_pt(19, 91, 88, 44), g2_pt(18, 69, 94, 11), 7, 61));
    assert(G2Point::mul_steps_defined(g2_pt(19, 91, 88, 44), g2_pt(5, 72, 16, 44), 14, 62));
    assert(G2Point::mul_steps_defined(g2_pt(0, 3, 9, 49), g2_pt(38, 33, 61, 75), 29, 63));
    assert(G2Point::mul_steps_defined(G2Point::Infinity, g2_pt(0, 3, 9, 49), 59, 64));
    assert(G2Point::smul_steps(G2Point::Infinity, g2_pt(0, 3, 9, 49), 59, 64) == G2Point::smul_steps(g2_pt(0, 3, 9, 49), g2_pt(38, 33, 61, 75), 29, 63));
    assert(G2Point::smul_steps(g2_pt(0, 3, 9, 49), g2_pt(38, 33, 61, 75), 29, 63) == G2Point::smul_steps(g2_pt(19, 91, 88, 44), g2_pt(5, 72, 16, 44), 14, 62));
    assert(G2Point::smul_steps(g2_pt(19, 91, 88, 44), g2_pt(5, 72, 16, 44), 14, 62) == G2Point::smul_steps(g2_pt(19, 91, 88, 44), g2_pt(18, 69, 94, 11), 7, 61));
    assert(G2Point::smul_steps(g2_pt(19, 91, 88, 44), g2_pt(18, 69, 94, 11), 7, 61) == G2Point::smul_steps(g2_pt(61, 30, 84, 76), g2_pt(93, 48, 94, 99), 3, 60));
    assert(G2Point::smul_steps(g2_pt(61, 30, 84, 76), g2_pt(93, 48, 94, 99), 3, 60) == G2Point::smul_steps(g2_pt(5, 95, 77, 68), g2_pt(18, 35, 17, 99), 1, 59));
    assert(G2Point::smul_steps(g2_pt(5, 95, 77, 68), g2_pt(18, 35, 17, 99), 1, 59) == G2Point::smul_steps(g2_pt(55, 2, 42, 26), g2_pt(84, 54, 48, 91), 0, 58));
    assert(G2Point::smul_steps(g2_pt(55, 2, 42, 26), g2_pt(84, 54, 48, 91), 0, 58) == G2Point::smul_steps(g2_pt(55, 2, 42, 26), g2_pt(31, 98, 39, 6), 0, 57));
    crate::pairing_values::lemma_distort_at(55, 2, 42, 26, 75, 0, 100, 2);
    assert(col_point(25) == crate::pairing_values::g1p(75, 100));
}

/// `60 H` by double-and-add: defined, and mapped by `i -> 10` to `26 P`.
#[verifier::spinoff_prover]
proof fn lemma_wide_60()
    ensures
        G2Point::sgenerator().mul_defined(60),
        G2Point::sgenerator().smul(60) == g2_pt(46, 46, 32, 37),
        sproject(g2_pt(46, 46, 32, 37)) == col_point(26),
{
    lemma_addition_7();
    lemma_wide_addition_11();
    lemma_wide_addition_40();
    lemma_double_0();
    lemma_double_1();
    lemma_double_2();
    lemma_double_3();
    lemma_double_4();
    lemma_double_5();
    lemma_double_6();
    lemma_cycle_steps(g2_pt(46, 46, 32, 37), g2_pt(31, 98, 39, 6), 57);
    G2Point::lemma_smul_steps_zero(g2_pt(46, 46, 32, 37), g2_pt(31, 98, 39, 6), 57);
    assert(G2Point::mul_steps_defined(g2_pt(46, 46, 32, 37), g2_pt(84, 54, 48, 91), 0, 58));
    assert(G2Point::mul_steps_defined(g2_pt(83, 3, 54, 52), g2_pt(18, 35, 17, 99), 1, 59));
    assert(G2Point::mul_steps_defined(g2_pt(29, 87, 70, 40), g2_pt(93, 48, 94, 99), 3, 60));
    assert(G2Point::mul_steps_defined(g2_pt(5, 72, 16, 44), g2_pt(18, 69, 94, 11), 7, 61));
    assert(G2Point::mul_steps_defined(G2Point::Infinity, g2_pt(5, 72, 16, 44), 15, 62));
    assert(G2Point::mul_steps_defined(G2Point::Infinity, g2_pt(38, 33, 61, 75), 30, 63));
    assert(G2Point::mul_steps_defined(G2Point::Infinity, g2_pt(0, 3, 9, 49), 60, 64));
    assert(G2Point::smul_steps(G2Point::Infinity, g2_pt(0, 3, 9, 49), 60, 64) == G2Point::smul_steps(G2Point::Infinity, g2_pt(38, 33, 61, 75), 30, 63));
    assert(G2Point::smul_steps(G2Point::Infinity, g2_pt(38, 33, 61, 75), 30, 63) == G2Point::smul_steps(G2Point::Infinity, g2_pt(5, 72, 16, 44), 15, 62));
    assert(G2Point::smul_steps(G2Point::Infinity, g2_pt(5, 72, 16, 44), 15, 62) == G2Point::smul_steps(g2_pt(5, 72, 16, 44), g2_pt(18, 69, 94, 11), 7, 61));
    assert(G2Point::smul_steps(g2_pt(5, 72, 16, 44), g2_pt(18, 69, 94, 11), 7, 61) == G2Point::smul_steps(g2_pt(29, 87, 70, 40), g2_pt(93, 48, 94, 99), 3, 60));
    assert(G2Point::smul_steps(g2_pt(29, 87, 70, 40), g2_pt(93, 48, 94, 99), 3, 60) == G2Point::smul_steps(g2_pt(83, 3, 54, 52), g2_pt(18, 35, 17, 99), 1, 59));
    assert(G2Point::smul_steps(g2_pt(83, 3, 54, 52), g2_pt(18, 35, 17, 99), 1, 59) == G2Point::smul_steps(g2_pt(46, 46, 32, 37), g2_pt(84, 54, 48, 91), 0, 58));
    assert(G2Point::smul_steps(g2_pt(46, 46, 32, 37), g2_pt(84, 54, 48, 91), 0, 58) == G2Point::smul_steps(g2_pt(46, 46, 32, 37), g2_pt(31, 98, 39, 6), 0, 57));
    crate::pairing_values::lemma_distort_at(46, 46, 32, 37, 1, 5, 99, 3);
    assert(col_point(26) == crate::pairing_values::g1p(1, 99));
}

/// `61 H` by double-and-add: defined, and mapped by `i -> 10` to `27 P`.
#[verifier::spinoff_prover]
proof fn lemma_wide_61()
    ensures
        G2Point::sgenerator().mul_defined(61),
        G2Point::sgenerator().smul(61) == g2_pt(75, 88, 44, 41),
        sproject(g2_pt(75, 88, 44, 41)) == col_point(27),
{
    lemma_addition_1();
    lemma_addition_8();
    lemma_wide_addition_12();
    lemma_wide_addition_41();
    lemma_double_0();
    lemma_double_1();
    lemma_double_2();
    lemma_double_3();
    lemma_double_4();
    lemma_double_5();
    lemma_double_6();
    lemma_cycle_steps(g2_pt(75, 88, 44, 41), g2_pt(31, 98, 39, 6), 57);
    G2Point::lemma_smul_steps_zero(g2_pt(75, 88, 44, 41), g2_pt(31, 98, 39, 6), 57);
    assert(G2Point::mul_steps_defined(g2_pt(75, 88, 44, 41), g2_pt(84, 54, 48, 91), 0, 58));
    assert(G2Point::mul_steps_defined(g2_pt(13, 79, 95, 59), g2_pt(18, 35, 17, 99), 1, 59));
    assert(G2Point::mul_steps_defined(g2_pt(4, 46, 3, 36), g2_pt(93, 48, 94, 99), 3, 60));
    assert(G2Point::mul_steps_defined(g2_pt(69, 33, 71, 86), g2_pt(18, 69, 94, 11), 7, 61));
    assert(G2Point::mul_steps_defined(g2_pt(0, 3, 9, 49), g2_pt(5, 72, 16, 44), 15, 62));
    assert(G2Point::mul_steps_defined(g2_pt(0, 3, 9, 49), g2_pt(38, 33, 61, 75), 30, 63));
    assert(G2Point::mul_steps_defined(G2Point::Infinity, g2_pt(0, 3, 9, 49), 61, 64));
    assert(G2Point::smul_steps(G2Point::Infinity, g2_pt(0, 3, 9, 49), 61, 64) == G2Point::smul_steps(g2_pt(0, 3, 9, 49), g2_pt(38, 33, 61, 75), 30, 63));
    assert(G2Point::smul_steps(g2_pt(0, 3, 9, 49), g2_pt(38, 33, 61, 75), 30, 63) == G2Point::smul_steps(g2_pt(0, 3, 9, 49), g2_pt(5, 72, 16, 44), 15, 62));
    assert(G2Point::smul_steps(g2_pt(0, 3, 9, 49), g2_pt(5, 72, 16, 44), 15, 62) == G2Point::smul_steps(g2_pt(69, 33, 71, 86), g2_pt(18, 69, 94, 11), 7, 61));
    assert(G2Point::smul_steps(g2_pt(69, 33, 71, 86), g2_pt(18, 69, 94, 11), 7, 61) == G2Point::smul_steps(g2_pt(4, 46, 3, 36), g2_pt(93, 48, 94, 99), 3, 60));
    assert(G2Point::smul_steps(g2_pt(4, 46, 3, 36), g2_pt(93, 48, 94, 99), 3, 60) == G2Point::smul_steps(g2_pt(13, 79, 95, 59), g2_pt(18, 35, 17, 99), 1, 59));
    assert(G2Point::smul_steps(g2_pt(13, 79, 95, 59), g2_pt(18, 35, 17, 99), 1, 59) == G2Point::smul_steps(g2_pt(75, 88, 44, 41), g2_pt(84, 54, 48, 91), 0, 58));
    assert(G2Point::smul_steps(g2_pt(75, 88, 44, 41), g2_pt(84, 54, 48, 91), 0, 58) == G2Point::smul_steps(g2_pt(75, 88, 44, 41), g2_pt(31, 98, 39, 6), 0, 57));
    crate::pairing_values::lemma_distort_at(75, 88, 44, 41, 46, 9, 50, 4);
    assert(col_point(27) == crate::pairing_values::g1p(46, 50));
}

/// `62 H` by double-and-add: defined, and mapped by `i -> 10` to `28 P`.
#[verifier::spinoff_prover]
proof fn lemma_wide_62()
    ensures
        G2Point::sgenerator().mul_defined(62),
        G2Point::sgenerator().smul(62) == g2_pt(38, 58, 50, 12),
        sproject(g2_pt(38, 58, 50, 12)) == col_point(28),
{
    lemma_addition_2();
    lemma_addition_9();
    lemma_wide_addition_13();
    lemma_wide_addition_42();
    lemma_double_0();
    lemma_double_1();
    lemma_double_2();
    lemma_double_3();
    lemma_double_4();
    lemma_double_5();
    lemma_double_6();
    lemma_cycle_steps(g2_pt(38, 58, 50, 12), g2_pt(31, 98, 39, 6), 57);
    G2Point::lemma_smul_steps_zero(g2_pt(38, 58, 50, 12), g2_pt(31, 98, 39, 6), 57);
    assert(G2Point::mul_steps_defined(g2_pt(38, 58, 50, 12), g2_pt(84, 54, 48, 91), 0, 58));
    assert(G2Point::mul_steps_defined(g2_pt(15, 71, 91, 16), g2_pt(18, 35, 17, 99), 1, 59));
    assert(G2Point::mul_steps_defined(g2_pt(42, 100, 84, 16), g2_pt(93, 48, 94, 99), 3, 60));
    assert(G2Point::mul_steps_defined(g2_pt(57, 46, 17, 52), g2_pt(18, 69, 94, 11), 7, 61));
    assert(G2Point::mul_steps_defined(g2_pt(38, 33, 61, 75), g2_pt(5, 72, 16, 44), 15, 62));
    assert(G2Point::mul_steps_defined(G2Point::Infinity, g2_pt(38, 33, 61, 75), 31, 63));
    assert(G2Point::mul_steps_defined(G2Point::Infinity, g2_pt(0, 3, 9, 49), 62, 64));
    assert(G2Point::smul_steps(G2Point::Infinity, g2_pt(0, 3, 9, 49), 62, 64) == G2Point::smul_steps(G2Point::Infinity, g2_pt(38, 33, 61, 75), 31, 63));
    assert(G2Point::smul_steps(G2Point::Infinity, g2_pt(38, 33, 61, 75), 31, 63) == G2Point::smul_steps(g2_pt(38, 33, 61, 75), g2_pt(5, 72, 16, 44), 15, 62));
    assert(G2Point::smul_steps(g2_pt(38, 33, 61, 75), g2_pt(5, 72, 16, 44), 15, 62) == G2Point::smul_steps(g2_pt(57, 46, 17, 52), g2_pt(18, 69, 94, 11), 7, 61));
    assert(G2Point::smul_steps(g2_pt(57, 46, 17, 52), g2_pt(18, 69, 94, 11), 7, 61) == G2Point::smul_steps(g2_pt(42, 100, 84, 16), g2_pt(93, 48, 94, 99), 3, 60));
    assert(G2Point::smul_steps(g2_pt(42, 100, 84, 16), g2_pt(93, 48, 94, 99), 3, 60) == G2Point::smul_steps(g2_pt(15, 71, 91, 16), g2_pt(18, 35, 17, 99), 1, 59));
    assert(G2Point::smul_steps(g2_pt(15, 71, 91, 16), g2_pt(18, 35, 17, 99), 1, 59) == G2Point::smul_steps(g2_pt(38, 58, 50, 12), g2_pt(84, 54, 48, 91), 0, 58));
    assert(G2Point::smul_steps(g2_pt(38, 58, 50, 12), g2_pt(84, 54, 48, 91), 0, 58) == G2Point::smul_steps(g2_pt(38, 58, 50, 12), g2_pt(31, 98, 39, 6), 0, 57));
    crate::pairing_values::lemma_distort_at(38, 58, 50, 12, 12, 6, 69, 1);
    assert(col_point(28) == crate::pairing_values::g1p(12, 69));
}

/// `63 H` by double-and-add: defined, and mapped by `i -> 10` to `29 P`.
#[verifier::spinoff_prover]
proof fn lemma_wide_63()
    ensures
        G2Point::sgenerator().mul_defined(63),
        G2Point::sgenerator().smul(63) == g2_pt(82, 62, 26, 76),
        sproject(g2_pt(82, 62, 26, 76)) == col_point(29),
{
    lemma_addition_0();
    lemma_addition_3();
    lemma_addition_10();
    lemma_wide_addition_14();
    lemma_wide_addition_43();
    lemma_double_0();
    lemma_double_1();
    lemma_double_2();
    lemma_double_3();
    lemma_double_4();
    lemma_double_5();
    lemma_double_6();
    lemma_cycle_steps(g2_pt(82, 62, 26, 76), g2_pt(31, 98, 39, 6), 57);
    G2Point::lemma_smul_steps_zero(g2_pt(82, 62, 26, 76), g2_pt(31, 98, 39, 6), 57);
    assert(G2Point::mul_steps_defined(g2_pt(82, 62, 26, 76), g2_pt(84, 54, 48, 91), 0, 58));
    assert(G2Point::mul_steps_defined(g2_pt(82, 14, 97, 89), g2_pt(18, 35, 17, 99), 1, 59));
    assert(G2Point::mul_steps_defined(g2_pt(71, 14, 32, 68), g2_pt(93, 48, 94, 99), 3, 60));
    assert(G2Point::mul_steps_defined(g2_pt(81, 47, 93, 16), g2_pt(18, 69, 94, 11), 7, 61));
    assert(G2Point::mul_steps_defined(g2_pt(19, 91, 88, 44), g2_pt(5, 72, 16, 44), 15, 62));
    assert(G2Point::mul_steps_defined(g2_pt(0, 3, 9, 49), g2_pt(38, 33, 61, 75), 31, 63));
    assert(G2Point::mul_steps_defined(G2Point::Infinity, g2_pt(0, 3, 9, 49), 63, 64));
    assert(G2Point::smul_steps(G2Point::Infinity, g2_pt(0, 3, 9, 49), 63, 64) == G2Point::smul_steps(g2_pt(0, 3, 9, 49), g2_pt(38, 33, 61, 75), 31, 63));
    assert(G2Point::smul_steps(g2_pt(0, 3, 9, 49), g2_pt(38, 33, 61, 75), 31, 63) == G2Point::smul_steps(g2_pt(19, 91, 88, 44), g2_pt(5, 72, 16, 44), 15, 62));
    assert(G2Point::smul_steps(g2_pt(19, 91, 88, 44), g2_pt(5, 72, 16, 44), 15, 62) == G2Point::smul_steps(g2_pt(81, 47, 93, 16), g2_pt(18, 69, 94, 11), 7, 61));
    assert(G2Point::smul_steps(g2_pt(81, 47, 93, 16), g2_pt(18, 69, 94, 11), 7, 61) == G2Point::smul_steps(g2_pt(71, 14, 32, 68), g2_pt(93, 48, 94, 99), 3, 60));
    assert(G2Point::smul_steps(g2_pt(71, 14, 32, 68), g2_pt(93, 48, 94, 99), 3, 60) == G2Point::smul_steps(g2_pt(82, 14, 97, 89), g2_pt(18, 35, 17, 99), 1, 59));
    assert(G2Point::smul_steps(g2_pt(82, 14, 97, 89), g2_pt(18, 35, 17, 99), 1, 59) == G2Point::smul_steps(g2_pt(82, 62, 26, 76), g2_pt(84, 54, 48, 91), 0, 58));
    assert(G2Point::smul_steps(g2_pt(82, 62, 26, 76), g2_pt(84, 54, 48, 91), 0, 58) == G2Point::smul_steps(g2_pt(82, 62, 26, 76), g2_pt(31, 98, 39, 6), 0, 57));
    crate::pairing_values::lemma_distort_at(82, 62, 26, 76, 96, 6, 79, 7);
    assert(col_point(29) == crate::pairing_values::g1p(96, 79));
}

/// `64 H` by double-and-add: defined, and mapped by `i -> 10` to `30 P`.
#[verifier::spinoff_prover]
proof fn lemma_wide_64()
    ensures
        G2Point::sgenerator().mul_defined(64),
        G2Point::sgenerator().smul(64) == g2_pt(84, 54, 48, 91),
        sproject(g2_pt(84, 54, 48, 91)) == col_point(30),
{
    lemma_double_0();
    lemma_double_1();
    lemma_double_2();
    lemma_double_3();
    lemma_double_4();
    lemma_double_5();
    lemma_double_6();
    lemma_cycle_steps(g2_pt(84, 54, 48, 91), g2_pt(31, 98, 39, 6), 57);
    G2Point::lemma_smul_steps_zero(g2_pt(84, 54, 48, 91), g2_pt(31, 98, 39, 6), 57);
    assert(G2Point::mul_steps_defined(G2Point::Infinity, g2_pt(84, 54, 48, 91), 1, 58));
    assert(G2Point::mul_steps_defined(G2Point::Infinity, g2_pt(18, 35, 17, 99), 2, 59));
    assert(G2Point::mul_steps_defined(G2Point::Infinity, g2_pt(93, 48, 94, 99), 4, 60));
    assert(G2Point::mul_steps_defined(G2Point::Infinity, g2_pt(18, 69, 94, 11), 8, 61));
    assert(G2Point::mul_steps_defined(G2Point::Infinity, g2_pt(5, 72, 16, 44), 16, 62));
    assert(G2Point::mul_steps_defined(G2Point::Infinity, g2_pt(38, 33, 61, 75), 32, 63));
    assert(G2Point::mul_steps_defined(G2Point::Infinity, g2_pt(0, 3, 9, 49), 64, 64));
    assert(G2Point::smul_steps(G2Point::Infinity, g2_pt(0, 3, 9, 49), 64, 64) == G2Point::smul_steps(G2Point::Infinity, g2_pt(38, 33, 61, 75), 32, 63));
    assert(G2Point::smul_steps(G2Point::Infinity, g2_pt(38, 33, 61, 75), 32, 63) == G2Point::smul_steps(G2Point::Infinity, g2_pt(5, 72, 16, 44), 16, 62));
    assert(G2Point::smul_steps(G2Point::Infinity, g2_pt(5, 72, 16, 44), 16, 62) == G2Point::smul_steps(G2Point::Infinity, g2_pt(18, 69, 94, 11), 8, 61));
    assert(G2Point::smul_steps(G2Point::Infinity, g2_pt(18, 69, 94, 11), 8, 61) == G2Point::smul_steps(G2Point::Infinity, g2_pt(93, 48, 94, 99), 4, 60));
    assert(G2Point::smul_steps(G2Point::Infinity, g2_pt(93, 48, 94, 99), 4, 60) == G2Point::smul_steps(G2Point::Infinity, g2_pt(18, 35, 17, 99), 2, 59));
    assert(G2Point::smul_steps(G2Point::Infinity, g2_pt(18, 35, 17, 99), 2, 59) == G2Point::smul_steps(G2Point::Infinity, g2_pt(84, 54, 48, 91), 1, 58));
    assert(G2Point::smul_steps(G2Point::Infinity, g2_pt(84, 54, 48, 91), 1, 58) == G2Point::smul_steps(g2_pt(84, 54, 48, 91), g2_pt(31, 98, 39, 6), 0, 57));
    crate::pairing_values::lemma_distort_at(84, 54, 48, 91, 18, 6, 49, 9);
    assert(col_point(30) == crate::pairing_values::g1p(18, 49));
}

/// `65 H` by double-and-add: defined, and mapped by `i -> 10` to `31 P`.
#[verifier::spinoff_prover]
proof fn lemma_wide_65()
    ensures
        G2Point::sgenerator().mul_defined(65),
        G2Point::sgenerator().smul(65) == g2_pt(36, 59, 1, 38),
        sproject(g2_pt(36, 59, 1, 38)) == col_point(31),
{
    lemma_wide_addition_44();
    lemma_double_0();
    lemma_double_1();
    lemma_double_2();
    lemma_double_3();
    lemma_double_4();
    lemma_double_5();
    lemma_double_6();
    lemma_cycle_steps(g2_pt(36, 59, 1, 38), g2_pt(31, 98, 39, 6), 57);
    G2Point::lemma_smul_steps_zero(g2_pt(36, 59, 1, 38), g2_pt(31, 98, 39, 6), 57);
    assert(G2Point::mul_steps_defined(g2_pt(0, 3, 9, 49), g2_pt(84, 54, 48, 91), 1, 58));
    assert(G2Point::mul_steps_defined(g2_pt(0, 3, 9, 49), g2_pt(18, 35, 17, 99), 2, 59));
    assert(G2Point::mul_steps_defined(g2_pt(0, 3, 9, 49), g2_pt(93, 48, 94, 99), 4, 60));
    assert(G2Point::mul_steps_defined(g2_pt(0, 3, 9, 49), g2_pt(18, 69, 94, 11), 8, 61));
    assert(G2Point::mul_steps_defined(g2_pt(0, 3, 9, 49), g2_pt(5, 72, 16, 44), 16, 62));
    assert(G2Point::mul_steps_defined(g2_pt(0, 3, 9, 49), g2_pt(38, 33, 61, 75), 32, 63));
    assert(G2Point::mul_steps_defined(G2Point::Infinity, g2_pt(0, 3, 9, 49), 65, 64));
    assert(G2Point::smul_steps(G2Point::Infinity, g2_pt(0, 3, 9, 49), 65, 64) == G2Point::smul_steps(g2_pt(0, 3, 9, 49), g2_pt(38, 33, 61, 75), 32, 63));
    assert(G2Point::smul_steps(g2_pt(0, 3, 9, 49), g2_pt(38, 33, 61, 75), 32, 63) == G2Point::smul_steps(g2_pt(0, 3, 9, 49), g2_pt(5, 72, 16, 44), 16, 62));
    assert(G2Point::smul_steps(g2_pt(0, 3, 9, 49), g2_pt(5, 72, 16, 44), 16, 62) == G2Point::smul_steps(g2_pt(0, 3, 9, 49), g2_pt(18, 69, 94, 11), 8, 61));
    assert(G2Point::smul_steps(g2_pt(0, 3, 9, 49), g2_pt(18, 69, 94, 11), 8, 61) == G2Point::smul_steps(g2_pt(0, 3, 9, 49), g2_pt(93, 48, 94, 99), 4, 60));
    assert(G2Point::smul_steps(g2_pt(0, 3, 9, 49), g2_pt(93, 48, 94, 99), 4, 60) == G2Point::smul_steps(g2_pt(0, 3, 9, 49), g2_pt(18, 35, 17, 99), 2, 59));
    assert(G2Point::smul_steps(g2_pt(0, 3, 9, 49), g2_pt(18, 35, 17, 99), 2, 59) == G2Point::smul_steps(g2_pt(0, 3, 9, 49), g2_pt(84, 54, 48, 91), 1, 58));
    assert(G2Point::smul_steps(g2_pt(0, 3, 9, 49), g2_pt(84, 54, 48, 91), 1, 58) == G2Point::smul_steps(g2_pt(36, 59, 1, 38), g2_pt(31, 98, 39, 6), 0, 57));
    crate::pairing_values::lemma_distort_at(36, 59, 1, 38, 20, 6, 78, 3);
    assert(col_point(31) == crate::pairing_values::g1p(20, 78));
}

/// `66 H` by double-and-add: defined, and mapped by `i -> 10` to `32 P`.
#[verifier::spinoff_prover]
proof fn lemma_wide_66()
    ensures
        G2Point::sgenerator().mul_defined(66),
        G2Point::sgenerator().smul(66) == g2_pt(99, 37, 28, 7),
        sproject(g2_pt(99, 37, 28, 7)) == col_point(32),
{
    lemma_wide_addition_45();
    lemma_double_0();
    lemma_double_1();
    lemma_double_2();
    lemma_double_3();
    lemma_double_4();
    lemma_double_5();
    lemma_double_6();
    lemma_cycle_steps(g2_pt(99, 37, 28, 7), g2_pt(31, 98, 39, 6), 57);
    G2Point::lemma_smul_steps_zero(g2_pt(99, 37, 28, 7), g2_pt(31, 98, 39, 6), 57);
    assert(G2Point::mul_steps_defined(g2_pt(38, 33, 61, 75), g2_pt(84, 54, 48, 91), 1, 58));
    assert(G2Point::mul_steps_defined(g2_pt(38, 33, 61, 75), g2_pt(18, 35, 17, 99), 2, 59));
    assert(G2Point::mul_steps_defined(g2_pt(38, 33, 61, 75), g2_pt(93, 48, 94, 99), 4, 60));
    assert(G2Point::mul_steps_defined(g2_pt(38, 33, 61, 75), g2_pt(18, 69, 94, 11), 8, 61));
    assert(G2Point::mul_steps_defined(g2_pt(38, 33, 61, 75), g2_pt(5, 72, 16, 44), 16, 62));
    assert(G2Point::mul_steps_defined(G2Point::Infinity, g2_pt(38, 33, 61, 75), 33, 63));
    assert(G2Point::mul_steps_defined(G2Point::Infinity, g2_pt(0, 3, 9, 49), 66, 64));
    assert(G2Point::smul_steps(G2Point::Infinity, g2_pt(0, 3, 9, 49), 66, 64) == G2Point::smul_steps(G2Point::Infinity, g2_pt(38, 33, 61, 75), 33, 63));
    assert(G2Point::smul_steps(G2Point::Infinity, g2_pt(38, 33, 61, 75), 33, 63) == G2Point::smul_steps(g2_pt(38, 33, 61, 75), g2_pt(5, 72, 16, 44), 16, 62));
    assert(G2Point::smul_steps(g2_pt(38, 33, 61, 75), g2_pt(5, 72, 16, 44), 16, 62) == G2Point::smul_steps(g2_pt(38, 33, 61, 75), g2_pt(18, 69, 94, 11), 8, 61));
    assert(G2Point::smul_steps(g2_pt(38, 33, 61, 75), g2_pt(18, 69, 94, 11), 8, 61) == G2Point::smul_steps(g2_pt(38, 33, 61, 75), g2_pt(93, 48, 94, 99), 4, 60));
    assert(G2Point::smul_steps(g2_pt(38, 33, 61, 75), g2_pt(93, 48, 94, 99), 4, 60) == G2Point::smul_steps(g2_pt(38, 33, 61, 75), g2_pt(18, 35, 17, 99), 2, 59));
    assert(G2Point::smul_steps(g2_pt(38, 33, 61, 75), g2_pt(18, 35, 17, 99), 2, 59) == G2Point::smul_steps(g2_pt(38, 33, 61, 75), g2_pt(84, 54, 48, 91), 1, 58));
    assert(G2Point::smul_steps(g2_pt(38, 33, 61, 75), g2_pt(84, 54, 48, 91), 1, 58) == G2Point::smul_steps(g2_pt(99, 37, 28, 7), g2_pt(31, 98, 39, 6), 0, 57));
    crate::pairing_values::lemma_distort_at(99, 37, 28, 7, 65, 4, 98, 0);
    assert(col_point(32) == crate::pairing_values::g1p(65, 98));
}

/// `67 H` by double-and-add: defined, and mapped by `i -> 10` to `33 P`.
#[verifier::spinoff_prover]
proof fn lemma_wide_67()
    ensures
        G2Point::sgenerator().mul_defined(67),
        G2Point::sgenerator().smul(67) == g2_pt(74, 36, 60, 35),
        sproject(g2_pt(74, 36, 60, 35)) == col_point(33),
{
    lemma_addition_0();
    lemma_wide_addition_46();
    lemma_double_0();
    lemma_double_1();
    lemma_double_2();
    lemma_double_3();
    lemma_double_4();
    lemma_double_5();
    lemma_double_6();
    lemma_cycle_steps(g2_pt(74, 36, 60, 35), g2_pt(31, 98, 39, 6), 57);
    G2Point::lemma_smul_steps_zero(g2_pt(74, 36, 60, 35), g2_pt(31, 98, 39, 6), 57);
    assert(G2Point::mul_steps_defined(g2_pt(19, 91, 88, 44), g2_pt(84, 54, 48, 91), 1, 58));
    assert(G2Point::mul_steps_defined(g2_pt(19, 91, 88, 44), g2_pt(18, 35, 17, 99), 2, 59));
    assert(G2Point::mul_steps_defined(g2_pt(19, 91, 88, 44), g2_pt(93, 48, 94, 99), 4, 60));
    assert(G2Point::mul_steps_defined(g2_pt(19, 91, 88, 44), g2_pt(18, 69, 94, 11), 8, 61));
    assert(G2Point::mul_steps_defined(g2_pt(19, 91, 88, 44), g2_pt(5, 72, 16, 44), 16, 62));
    assert(G2Point::mul_steps_defined(g2_pt(0, 3, 9, 49), g2_pt(38, 33, 61, 75), 33, 63));
    assert(G2Point::mul_steps_defined(G2Point::Infinity, g2_pt(0, 3, 9, 49), 67, 64));
    assert(G2Point::smul_steps(G2Point::Infinity, g2_pt(0, 3, 9, 49), 67, 64) == G2Point::smul_steps(g2_pt(0, 3, 9, 49), g2_pt(38, 33, 61, 75), 33, 63));
    assert(G2Point::smul_steps(g2_pt(0, 3, 9, 49), g2_pt(38, 33, 61, 75), 33, 63) == G2Point::smul_steps(g2_pt(19, 91, 88, 44), g2_pt(5, 72, 16, 44), 16, 62));
    assert(G2Point::smul_steps(g2_pt(19, 91, 88, 44), g2_pt(5, 72, 16, 44), 16, 62) == G2Point::smul_steps(g2_pt(19, 91, 88, 44), g2_pt(18, 69, 94, 11), 8, 61));
    assert(G2Point::smul_steps(g2_pt(19, 91, 88, 44), g2_pt(18, 69, 94, 11), 8, 61) == G2Point::smul_steps(g2_pt(19, 91, 88, 44), g2_pt(93, 48, 94, 99), 4, 60));
    assert(G2Point::smul_steps(g2_pt(19, 91, 88, 44), g2_pt(93, 48, 94, 99), 4, 60) == G2Point::smul_steps(g2_pt(19, 91, 88, 44), g2_pt(18, 35, 17, 99), 2, 59));
    assert(G2Point::smul_steps(g2_pt(19, 91, 88, 44), g2_pt(18, 35, 17, 99), 2, 59) == G2Point::smul_steps(g2_pt(19, 91, 88, 44), g2_pt(84, 54, 48, 91), 1, 58));
    assert(G2Point::smul_steps(g2_pt(19, 91, 88, 44), g2_pt(84, 54, 48, 91), 1, 58) == G2Point::smul_steps(g2_pt(74, 36, 60, 35), g2_pt(31, 98, 39, 6), 0, 57));
    crate::pairing_values::lemma_distort_at(74, 36, 60, 35, 30, 4, 6, 4);
    assert(col_point(33) == crate::pairing_values::g1p(30, 6));
}

/// `69 H` by double-and-add: defined, and mapped by `i -> 10` to `1 P`.
#[verifier::spinoff_prover]
proof fn lemma_wide_69()
    ensures
        G2Point::sgenerator().mul_defined(69),
        G2Point::sgenerator().smul(69) == g2_pt(28, 81, 70, 53),
        sproject(g2_pt(28, 81, 70, 53)) == col_point(1),
{
    lemma_addition_1();
    lemma_wide_addition_47();
    lemma_double_0();
    lemma_double_1();
    lemma_double_2();
    lemma_double_3();
    lemma_double_4();
    lemma_double_5();
    lemma_double_6();
    lemma_cycle_steps(g2_pt(28, 81, 70, 53), g2_pt(31, 98, 39, 6), 57);
    G2Point::lemma_smul_steps_zero(g2_pt(28, 81, 70, 53), g2_pt(31, 98, 39, 6), 57);
    assert(G2Point::mul_steps_defined(g2_pt(69, 33, 71, 86), g2_pt(84, 54, 48, 91), 1, 58));
    assert(G2Point::mul_steps_defined(g2_pt(69, 33, 71, 86), g2_pt(18, 35, 17, 99), 2, 59));
    assert(G2Point::mul_steps_defined(g2_pt(69, 33, 71, 86), g2_pt(93, 48, 94, 99), 4, 60));
    assert(G2Point::mul_steps_defined(g2_pt(69, 33, 71, 86), g2_pt(18, 69, 94, 11), 8, 61));
    assert(G2Point::mul_steps_defined(g2_pt(0, 3, 9, 49), g2_pt(5, 72, 16, 44), 17, 62));
    assert(G2Point::mul_steps_defined(g2_pt(0, 3, 9, 49), g2_pt(38, 33, 61, 75), 34, 63));
    assert(G2Point::mul_steps_defined(G2Point::Infinity, g2_pt(0, 3, 9, 49), 69, 64));
    assert(G2Point::smul_steps(G2Point::Infinity, g2_pt(0, 3, 9, 49), 69, 64) == G2Point::smul_steps(g2_pt(0, 3, 9, 49), g2_pt(38, 33, 61, 75), 34, 63));
    assert(G2Point::smul_steps(g2_pt(0, 3, 9, 49), g2_pt(38, 33, 61, 75), 34, 63) == G2Point::smul_steps(g2_pt(0, 3, 9, 49), g2_pt(5, 72, 16, 44), 17, 62));
    assert(G2Point::smul_steps(g2_pt(0, 3, 9, 49), g2_pt(5, 72, 16, 44), 17, 62) == G2Point::smul_steps(g2_pt(69, 33, 71, 86), g2_pt(18, 69, 94, 11), 8, 61));
    assert(G2Point::smul_steps(g2_pt(69, 33, 71, 86), g2_pt(18, 69, 94, 11), 8, 61) == G2Point::smul_steps(g2_pt(69, 33, 71, 86), g2_pt(93, 48, 94, 99), 4, 60));
    assert(G2Point::smul_steps(g2_pt(69, 33, 71, 86), g2_pt(93, 48, 94, 99), 4, 60) == G2Point::smul_steps(g2_pt(69, 33, 71, 86), g2_pt(18, 35, 17, 99), 2, 59));
    assert(G2Point::smul_steps(g2_pt(69, 33, 71, 86), g2_pt(18, 35, 17, 99), 2, 59) == G2Point::smul_steps(g2_pt(69, 33, 71, 86), g2_pt(84, 54, 48, 91), 1, 58));
    assert(G2Point::smul_steps(g2_pt(69, 33, 71, 86), g2_pt(84, 54, 48, 91), 1, 58) == G2Point::smul_steps(g2_pt(28, 81, 70, 53), g2_pt(31, 98, 39, 6), 0, 57));
    crate::pairing_values::lemma_distort_at(28, 81, 70, 53, 30, 8, 95, 5);
    assert(col_point(1) == crate::pairing_values::g1p(30, 95));
}

/// `70 H` by double-and-add: defined, and mapped by `i -> 10` to `2 P`.
#[verifier::spinoff_prover]
proof fn lemma_wide_70()
    ensures
        G2Point::sgenerator().mul_defined(70),
        G2Point::sgenerator().smul(70) == g2_pt(18, 35, 84, 2),
        sproject(g2_pt(18, 35, 84, 2)) == col_point(2),
{
    lemma_addition_2();
    lemma_wide_addition_48();
    lemma_double_0();
    lemma_double_1();
    lemma_double_2();
    lemma_double_3();
    lemma_double_4();
    lemma_double_5();
    lemma_double_6();
    lemma_cycle_steps(g2_pt(18, 35, 84, 2), g2_pt(31, 98, 39, 6), 57);
    G2Point::lemma_smul_steps_zero(g2_pt(18, 35, 84, 2), g2_pt(31, 98, 39, 6), 57);
    assert(G2Point::mul_steps_defined(g2_pt(57, 46, 17, 52), g2_pt(84, 54, 48, 91), 1, 58));
    assert(G2Point::mul_steps_defined(g2_pt(57, 46, 17, 52), g2_pt(18, 35, 17, 99), 2, 59));
    assert(G2Point::mul_steps_defined(g2_pt(57, 46, 17, 52), g2_pt(93, 48, 94, 99), 4, 60));
    assert(G2Point::mul_steps_defined(g2_pt(57, 46, 17, 52), g2_pt(18, 69, 94, 11), 8, 61));
    assert(G2Point::mul_steps_defined(g2_pt(38, 33, 61, 75), g2_pt(5, 72, 16, 44), 17, 62));
    assert(G2Point::mul_steps_defined(G2Point::Infinity, g2_pt(38, 33, 61, 75), 35, 63));
    assert(G2Point::mul_steps_defined(G2Point::Infinity, g2_pt(0, 3, 9, 49), 70, 64));
    assert(G2Point::smul_steps(G2Point::Infinity, g2_pt(0, 3, 9, 49), 70, 64) == G2Point::smul_steps(G2Point::Infinity, g2_pt(38, 33, 61, 75), 35, 63));
    assert(G2Point::smul_steps(G2Point::Infinity, g2_pt(38, 33, 61, 75), 35, 63) == G2Point::smul_steps(g2_pt(38, 33, 61, 75), g2_pt(5, 72, 16, 44), 17, 62));
    assert(G2Point::smul_steps(g2_pt(38, 33, 61, 75), g2_pt(5, 72, 16, 44), 17, 62) == G2Point::smul_steps(g2_pt(57, 46, 17, 52), g2_pt(18, 69, 94, 11), 8, 61));
    assert(G2Point::smul_steps(g2_pt(57, 46, 17, 52), g2_pt(18, 69, 94, 11), 8, 61) == G2Point::smul_steps(g2_pt(57, 46, 17, 52), g2_pt(93, 48, 94, 99), 4, 60));
    assert(G2Point::smul_steps(g2_pt(57, 46, 17, 52), g2_pt(93, 48, 94, 99), 4, 60) == G2Point::smul_steps(g2_pt(57, 46, 17, 52), g2_pt(18, 35, 17, 99), 2, 59));
    assert(G2Point::smul_steps(g2_pt(57, 46, 17, 52), g2_pt(18, 35, 17, 99), 2, 59) == G2Point::smul_steps(g2_pt(57, 46, 17, 52), g2_pt(84, 54, 48, 91), 1, 58));
    assert(G2Point::smul_steps(g2_pt(57, 46, 17, 52), g2_pt(84, 54, 48, 91), 1, 58) == G2Point::smul_steps(g2_pt(18, 35, 84, 2), g2_pt(31, 98, 39, 6), 0, 57));
    crate::pairing_values::lemma_distort_at(18, 35, 84, 2, 65, 3, 3, 1);
    assert(col_point(2) == crate::pairing_values::g1p(65, 3));
}

/// `71 H` by double-and-add: defined, and mapped by `i -> 10` to `3 P`.
#[verifier::spinoff_prover]
proof fn lemma_wide_71()
    ensures
        G2Point::sgenerator().mul_defined(71),
        G2Point::sgenerator().smul(71) == g2_pt(82, 14, 4, 12),
        sproject(g2_pt(82, 14, 4, 12)) == col_point(3),
{
    lemma_addition_0();
    lemma_addition_3();
    lemma_wide_addition_49();
    lemma_double_0();
    lemma_double_1();
    lemma_double_2();
    lemma_double_3();
    lemma_double_4();
    lemma_double_5();
    lemma_double_6();
    lemma_cycle_steps(g2_pt(82, 14, 4, 12), g2_pt(31, 98, 39, 6), 57);
    G2Point::lemma_smul_steps_zero(g2_pt(82, 14, 4, 12), g2_pt(31, 98, 39, 6), 57);
    assert(G2Point::mul_steps_defined(g2_pt(81, 47, 93, 16), g2_pt(84, 54, 48, 91), 1, 58));
    assert(G2Point::mul_steps_defined(g2_pt(81, 47, 93, 16), g2_pt(18, 35, 17, 99), 2, 59));
    assert(G2Point::mul_steps_defined(g2_pt(81, 47, 93, 16), g2_pt(93, 48, 94, 99), 4, 60));
    assert(G2Point::mul_steps_defined(g2_pt(81, 47, 93, 16), g2_pt(18, 69, 94, 11), 8, 61));
    assert(G2Point::mul_steps_defined(g2_pt(19, 91, 88, 44), g2_pt(5, 72, 16, 44), 17, 62));
    assert(G2Point::mul_steps_defined(g2_pt(0, 3, 9, 49), g2_pt(38, 33, 61, 75), 35, 63));
    assert(G2Point::mul_steps_defined(G2Point::Infinity, g2_pt(0, 3, 9, 49), 71, 64));
    assert(G2Point::smul_steps(G2Point::Infinity, g2_pt(0, 3, 9, 49), 71, 64) == G2Point::smul_steps(g2_pt(0, 3, 9, 49), g2_pt(38, 33, 61, 75), 35, 63));
    assert(G2Point::smul_steps(g2_pt(0, 3, 9, 49), g2_pt(38, 33, 61, 75), 35, 63) == G2Point::smul_steps(g2_pt(19, 91, 88, 44), g2_pt(5, 72, 16, 44), 17, 62));
    assert(G2Point::smul_steps(g2_pt(19, 91, 88, 44), g2_pt(5, 72, 16, 44), 17, 62) == G2Point::smul_steps(g2_pt(81, 47, 93, 16), g2_pt(18, 69, 94, 11), 8, 61));
    assert(G2Point::smul_steps(g2_pt(81, 47, 93, 16), g2_pt(18, 69, 94, 11), 8, 61) == G2Point::smul_steps(g2_pt(81, 47, 93, 16), g2_pt(93, 48, 94, 99), 4, 60));
    assert(G2Point::smul_steps(g2_pt(81, 47, 93, 16), g2_pt(93, 48, 94, 99), 4, 60) == G2Point::smul_steps(g2_pt(81, 47, 93, 16), g2_pt(18, 35, 17, 99), 2, 59));
    assert(G2Point::smul_steps(g2_pt(81, 47, 93, 16), g2_pt(18, 35, 17, 99), 2, 59) == G2Point::smul_steps(g2_pt(81, 47, 93, 16), g2_pt(84, 54, 48, 91), 1, 58));
    assert(G2Point::smul_steps(g2_pt(81, 47, 93, 16), g2_pt(84, 54, 48, 91), 1, 58) == G2Point::smul_steps(g2_pt(82, 14, 4, 12), g2_pt(31, 98, 39, 6), 0, 57));
    crate::pairing_values::lemma_distort_at(82, 14, 4, 12, 20, 2, 23, 1);
    assert(col_point(3) == crate::pairing_values::g1p(20, 23));
}

/// `72 H` by double-and-add: defined, and mapped by `i -> 10` to `4 P`.
#[verifier::spinoff_prover]
proof fn lemma_wide_72()
    ensures
        G2Point::sgenerator().mul_defined(72),
        G2Point::sgenerator().smul(72) == g2_pt(15, 71, 10, 85),
        sproject(g2_pt(15, 71, 10, 85)) == col_point(4),
{
    lemma_wide_addition_50();
    lemma_double_0();
    lemma_double_1();
    lemma_double_2();
    lemma_double_3();
    lemma_double_4();
    lemma_double_5();
    lemma_double_6();
    lemma_cycle_steps(g2_pt(15, 71, 10, 85), g2_pt(31, 98, 39, 6), 57);
    G2Point::lemma_smul_steps_zero(g2_pt(15, 71, 10, 85), g2_pt(31, 98, 39, 6), 57);
    assert(G2Point::mul_steps_defined(g2_pt(18, 69, 94, 11), g2_pt(84, 54, 48, 91), 1, 58));
    assert(G2Point::mul_steps_defined(g2_pt(18, 69, 94, 11), g2_pt(18, 35, 17, 99), 2, 59));
    assert(G2Point::mul_steps_defined(g2_pt(18, 69, 94, 11), g2_pt(93, 48, 94, 99), 4, 60));
    assert(G2Point::mul_steps_defined(G2Point::Infinity, g2_pt(18, 69, 94, 11), 9, 61));
    assert(G2Point::mul_steps_defined(G2Point::Infinity, g2_pt(5, 72, 16, 44), 18, 62));
    assert(G2Point::mul_steps_defined(G2Point::Infinity, g2_pt(38, 33, 61, 75), 36, 63));
    assert(G2Point::mul_steps_defined(G2Point::Infinity, g2_pt(0, 3, 9, 49), 72, 64));
    assert(G2Point::smul_steps(G2Point::Infinity, g2_pt(0, 3, 9, 49), 72, 64) == G2Point::smul_steps(G2Point::Infinity, g2_pt(38, 33, 61, 75), 36, 63));
    assert(G2Point::smul_steps(G2Point::Infinity, g2_pt(38, 33, 61, 75), 36, 63) == G2Point::smul_steps(G2Point::Infinity, g2_pt(5, 72, 16, 44), 18, 62));
    assert(G2Point::smul_steps(G2Point::Infinity, g2_pt(5, 72, 16, 44), 18, 62) == G2Point::smul_steps(G2Point::Infinity, g2_pt(18, 69, 94, 11), 9, 61));
    assert(G2Point::smul_steps(G2Point::Infinity, g2_pt(18, 69, 94, 11), 9, 61) == G2Point::smul_steps(g2_pt(18, 69, 94, 11), g2_pt(93, 48, 94, 99), 4, 60));
    assert(G2Point::smul_steps(g2_pt(18, 69, 94, 11), g2_pt(93, 48, 94, 99), 4, 60) == G2Point::smul_steps(g2_pt(18, 69, 94, 11), g2_pt(18, 35, 17, 99), 2, 59));
    assert(G2Point::smul_steps(g2_pt(18, 69, 94, 11), g2_pt(18, 35, 17, 99), 2, 59) == G2Point::smul_steps(g2_pt(18, 69, 94, 11), g2_pt(84, 54, 48, 91), 1, 58));
    assert(G2Point::smul_steps(g2_pt(18, 69, 94, 11), g2_pt(84, 54, 48, 91), 1, 58) == G2Point::smul_steps(g2_pt(15, 71, 10, 85), g2_pt(31, 98, 39, 6), 0, 57));
    crate::pairing_values::lemma_distort_at(15, 71, 10, 85, 18, 7, 52, 8);
    assert(col_point(4) == crate::pairing_values::g1p(18, 52));
}

/// `73 H` by double-and-add: defined, and mapped by `i -> 10` to `5 P`.
#[verifier::spinoff_prover]
proof fn lemma_wide_73()
    ensures
        G2Point::sgenerator().mul_defined(73),
        G2Point::sgenerator().smul(73) == g2_pt(13, 79, 6, 42),
        sproject(g2_pt(13, 79, 6, 42)) == col_point(5),
{
    lemma_addition_4();
    lemma_wide_addition_51();
    lemma_double_0();
    lemma_double_1();
    lemma_double_2();
    lemma_double_3();
    lemma_double_4();
    lemma_double_5();
    lemma_double_6();
    lemma_cycle_steps(g2_pt(13, 79, 6, 42), g2_pt(31, 98, 39, 6), 57);
    G2Point::lemma_smul_steps_zero(g2_pt(13, 79, 6, 42), g2_pt(31, 98, 39, 6), 57);
    assert(G2Point::mul_steps_defined(g2_pt(83, 80, 84, 22), g2_pt(84, 54, 48, 91), 1, 58));
    assert(G2Point::mul_steps_defined(g2_pt(83, 80, 84, 22), g2_pt(18, 35, 17, 99), 2, 59));
    assert(G2Point::mul_steps_defined(g2_pt(83, 80, 84, 22), g2_pt(93, 48, 94, 99), 4, 60));
    assert(G2Point::mul_steps_defined(g2_pt(0, 3, 9, 49), g2_pt(18, 69, 94, 11), 9, 61));
    assert(G2Point::mul_steps_defined(g2_pt(0, 3, 9, 49), g2_pt(5, 72, 16, 44), 18, 62));
    assert(G2Point::mul_steps_defined(g2_pt(0, 3, 9, 49), g2_pt(38, 33, 61, 75), 36, 63));
    assert(G2Point::mul_steps_defined(G2Point::Infinity, g2_pt(0, 3, 9, 49), 73, 64));
    assert(G2Point::smul_steps(G2Point::Infinity, g2_pt(0, 3, 9, 49), 73, 64) == G2Point::smul_steps(g2_pt(0, 3, 9, 49), g2_pt(38, 33, 61, 75), 36, 63));
    assert(G2Point::smul_steps(g2_pt(0, 3, 9, 49), g2_pt(38, 33, 61, 75), 36, 63) == G2Point::smul_steps(g2_pt(0, 3, 9, 49), g2_pt(5, 72, 16, 44), 18, 62));
    assert(G2Point::smul_steps(g2_pt(0, 3, 9, 49), g2_pt(5, 72, 16, 44), 18, 62) == G2Point::smul_steps(g2_pt(0, 3, 9, 49), g2_pt(18, 69, 94, 11), 9, 61));
    assert(G2Point::smul_steps(g2_pt(0, 3, 9, 49), g2_pt(18, 69, 94, 11), 9, 61) == G2Point::smul_steps(g2_pt(83, 80, 84, 22), g2_pt(93, 48, 94, 99), 4, 60));
    assert(G2Point::smul_steps(g2_pt(83, 80, 84, 22), g2_pt(93, 48, 94, 99), 4, 60) == G2Point::smul_steps(g2_pt(83, 80, 84, 22), g2_pt(18, 35, 17, 99), 2, 59));
    assert(G2Point::smul_steps(g2_pt(83, 80, 84, 22), g2_pt(18, 35, 17, 99), 2, 59) == G2Point::smul_steps(g2_pt(83, 80, 84, 22), g2_pt(84, 54, 48, 91), 1, 58));
    assert(G2Point::smul_steps(g2_pt(83, 80, 84, 22), g2_pt(84, 54, 48, 91), 1, 58) == G2Point::smul_steps(g2_pt(13, 79, 6, 42), g2_pt(31, 98, 39, 6), 0, 57));
    crate::pairing_values::lemma_distort_at(13, 79, 6, 42, 96, 7, 22, 4);
    assert(col_point(5) == crate::pairing_values::g1p(96, 22));
}

/// `74 H` by double-and-add: defined, and mapped by `i -> 10` to `6 P`.
#[verifier::spinoff_prover]
proof fn lemma_wide_74()
    ensures
        G2Point::sgenerator().mul_defined(74),
        G2Point::sgenerator().smul(74) == g2_pt(83, 3, 47, 49),
        sproject(g2_pt(83, 3, 47, 49)) == col_point(6),
{
    lemma_addition_5();
    lemma_wide_addition_52();
    lemma_double_0();
    lemma_double_1();
    lemma_double_2();
    lemma_double_3();
    lemma_double_4();
    lemma_double_5();
    lemma_double_6();
    lemma_cycle_steps(g2_pt(83, 3, 47, 49), g2_pt(31, 98, 39, 6), 57);
    G2Point::lemma_smul_steps_zero(g2_pt(83, 3, 47, 49), g2_pt(31, 98, 39, 6), 57);
    assert(G2Point::mul_steps_defined(g2_pt(65, 87, 47, 11), g2_pt(84, 54, 48, 91), 1, 58));
    assert(G2Point::mul_steps_defined(g2_pt(65, 87, 47, 11), g2_pt(18, 35, 17, 99), 2, 59));
    assert(G2Point::mul_steps_defined(g2_pt(65, 87, 47, 11), g2_pt(93, 48, 94, 99), 4, 60));
    assert(G2Point::mul_steps_defined(g2_pt(38, 33, 61, 75), g2_pt(18, 69, 94, 11), 9, 61));
    assert(G2Point::mul_steps_defined(g2_pt(38, 33, 61, 75), g2_pt(5, 72, 16, 44), 18, 62));
    assert(G2Point::mul_steps_defined(G2Point::Infinity, g2_pt(38, 33, 61, 75), 37, 63));
    assert(G2Point::mul_steps_defined(G2Point::Infinity, g2_pt(0, 3, 9, 49), 74, 64));
    assert(G2Point::smul_steps(G2Point::Infinity, g2_pt(0, 3, 9, 49), 74, 64) == G2Point::smul_steps(G2Point::Infinity, g2_pt(38, 33, 61, 75), 37, 63));
    assert(G2Point::smul_steps(G2Point::Infinity, g2_pt(38, 33, 61, 75), 37, 63) == G2Point::smul_steps(g2_pt(38, 33, 61, 75), g2_pt(5, 72, 16, 44), 18, 62));
    assert(G2Point::smul_steps(g2_pt(38, 33, 61, 75), g2_pt(5, 72, 16, 44), 18, 62) == G2Point::smul_steps(g2_pt(38, 33, 61, 75), g2_pt(18, 69, 94, 11), 9, 61));
    assert(G2Point::smul_steps(g2_pt(38, 33, 61, 75), g2_pt(18, 69, 94, 11), 9, 61) == G2Point::smul_steps(g2_pt(65, 87, 47, 11), g2_pt(93, 48, 94, 99), 4, 60));
    assert(G2Point::smul_steps(g2_pt(65, 87, 47, 11), g2_pt(93, 48, 94, 99), 4, 60) == G2Point::smul_steps(g2_pt(65, 87, 47, 11), g2_pt(18, 35, 17, 99), 2, 59));
    assert(G2Point::smul_steps(g2_pt(65, 87, 47, 11), g2_pt(18, 35, 17, 99), 2, 59) == G2Point::smul_steps(g2_pt(65, 87, 47, 11), g2_pt(84, 54, 48, 91), 1, 58));
    assert(G2Point::smul_steps(g2_pt(65, 87, 47, 11), g2_pt(84, 54, 48, 91), 1, 58) == G2Point::smul_steps(g2_pt(83, 3, 47, 49), g2_pt(31, 98, 39, 6), 0, 57));
    crate::pairing_values::lemma_distort_at(83, 3, 47, 49, 12, 1, 32, 5);
    assert(col_point(6) == crate::pairing_values::g1p(12, 32));
}

/// `75 H` by double-and-add: defined, and mapped by `i -> 10` to `7 P`.
#[verifier::spinoff_prover]
proof fn lemma_wide_75()
    ensures
        G2Point::sgenerator().mul_defined(75),
        G2Point::sgenerator().smul(75) == g2_pt(5, 95, 24, 33),
        sproject(g2_pt(5, 95, 24, 33)) == col_point(7),
{
    lemma_addition_0();
    lemma_addition_6();
    lemma_wide_addition_53();
    lemma_double_0();
    lemma_double_1();
    lemma_double_2();
    lemma_double_3();
    lemma_double_4();
    lemma_double_5();
    lemma_double_6();
    lemma_cycle_steps(g2_pt(5, 95, 24, 33), g2_pt(31, 98, 39, 6), 57);
    G2Point::lemma_smul_steps_zero(g2_pt(5, 95, 24, 33), g2_pt(31, 98, 39, 6), 57);
    assert(G2Point::mul_steps_defined(g2_pt(61, 30, 84, 76), g2_pt(84, 54, 48, 91), 1, 58));
    assert(G2Point::mul_steps_defined(g2_pt(61, 30, 84, 76), g2_pt(18, 35, 17, 99), 2, 59));
    assert(G2Point::mul_steps_defined(g2_pt(61, 30, 84, 76), g2_pt(93, 48, 94, 99), 4, 60));
    assert(G2Point::mul_steps_defined(g2_pt(19, 91, 88, 44), g2_pt(18, 69, 94, 11), 9, 61));
    assert(G2Point::mul_steps_defined(g2_pt(19, 91, 88, 44), g2_pt(5, 72, 16, 44), 18, 62));
    assert(G2Point::mul_steps_defined(g2_pt(0, 3, 9, 49), g2_pt(38, 33, 61, 75), 37, 63));
    assert(G2Point::mul_steps_defined(G2Point::Infinity, g2_pt(0, 3, 9, 49), 75, 64));
    assert(G2Point::smul_steps(G2Point::Infinity, g2_pt(0, 3, 9, 49), 75, 64) == G2Point::smul_steps(g2_pt(0, 3, 9, 49), g2_pt(38, 33, 61, 75), 37, 63));
    assert(G2Point::smul_steps(g2_pt(0, 3, 9, 49), g2_pt(38, 33, 61, 75), 37, 63) == G2Point::smul_steps(g2_pt(19, 91, 88, 44), g2_pt(5, 72, 16, 44), 18, 62));
    assert(G2Point::smul_steps(g2_pt(19, 91, 88, 44), g2_pt(5, 72, 16, 44), 18, 62) == G2Point::smul_steps(g2_pt(19, 91, 88, 44), g2_pt(18, 69, 94, 11), 9, 61));
    assert(G2Point::smul_steps(g2_pt(19, 91, 88, 44), g2_pt(18, 69, 94, 11), 9, 61) == G2Point::smul_steps(g2_pt(61, 30, 84, 76), g2_pt(93, 48, 94, 99), 4, 60));
    assert(G2Point::smul_steps(g2_pt(61, 30, 84, 76), g2_pt(93, 48, 94, 99), 4, 60) == G2Point::smul_steps(g2_pt(61, 30, 84, 76), g2_pt(18, 35, 17, 99), 2, 59));
    assert(G2Point::smul_steps(g2_pt(61, 30, 84, 76), g2_pt(18, 35, 17, 99), 2, 59) == G2Point::smul_steps(g2_pt(61, 30, 84, 76), g2_pt(84, 54, 48, 91), 1, 58));
    assert(G2Point::smul_steps(g2_pt(61, 30, 84, 76), g2_pt(84, 54, 48, 91), 1, 58) == G2Point::smul_steps(g2_pt(5, 95, 24, 33), g2_pt(31, 98, 39, 6), 0, 57));
    crate::pairing_values::lemma_distort_at(5, 95, 24, 33, 46, 9, 51, 3);
    assert(col_point(7) == crate::pairing_values::g1p(46, 51));
}

/// `76 H` by double-and-add: defined, and mapped by `i -> 10` to `8 P`.
#[verifier::spinoff_prover]
proof fn lemma_wide_76()
    ensures
        G2Point::sgenerator().mul_defined(76),
        G2Point::sgenerator().smul(76) == g2_pt(31, 98, 62, 95),
        sproject(g2_pt(31, 98, 62, 95)) == col_point(8),
{
    lemma_addition_7();
    lemma_wide_addition_54();
    lemma_double_0();
    lemma_double_1();
    lemma_double_2();
    lemma_double_3();
    lemma_double_4();
    lemma_double_5();
    lemma_double_6();
    lemma_cycle_steps(g2_pt(31, 98, 62, 95), g2_pt(31, 98, 39, 6), 57);
    G2Point::lemma_smul_steps_zero(g2_pt(31, 98, 62, 95), g2_pt(31, 98, 39, 6), 57);
    assert(G2Point::mul_steps_defined(g2_pt(29, 87, 70, 40), g2_pt(84, 54, 48, 91), 1, 58));
    assert(G2Point::mul_steps_defined(g2_pt(29, 87, 70, 40), g2_pt(18, 35, 17, 99), 2, 59));
    assert(G2Point::mul_steps_defined(g2_pt(29, 87, 70, 40), g2_pt(93, 48, 94, 99), 4, 60));
    assert(G2Point::mul_steps_defined(g2_pt(5, 72, 16, 44), g2_pt(18, 69, 94, 11), 9, 61));
    assert(G2Point::mul_steps_defined(G2Point::Infinity, g2_pt(5, 72, 16, 44), 19, 62));
    assert(G2Point::mul_steps_defined(G2Point::Infinity, g2_pt(38, 33, 61, 75), 38, 63));
    assert(G2Point::mul_steps_defined(G2Point::Infinity, g2_pt(0, 3, 9, 49), 76, 64));
    assert(G2Point::smul_steps(G2Point::Infinity, g2_pt(0, 3, 9, 49), 76, 64) == G2Point::smul_steps(G2Point::Infinity, g2_pt(38, 33, 61, 75), 38, 63));
    assert(G2Point::smul_steps(G2Point::Infinity, g2_pt(38, 33, 61, 75), 38, 63) == G2Point::smul_steps(G2Point::Infinity, g2_pt(5, 72, 16, 44), 19, 62));
    assert(G2Point::smul_steps(G2Point::Infinity, g2_pt(5, 72, 16, 44), 19, 62) == G2Point::smul_steps(g2_pt(5, 72, 16, 44), g2_pt(18, 69, 94, 11), 9, 61));
    assert(G2Point::smul_steps(g2_pt(5, 72, 16, 44), g2_pt(18, 69, 94, 11), 9, 61) == G2Point::smul_steps(g2_pt(29, 87, 70, 40), g2_pt(93, 48, 94, 99), 4, 60));
    assert(G2Point::smul_steps(g2_pt(29, 87, 70, 40), g2_pt(93, 48, 94, 99), 4, 60) == G2Point::smul_steps(g2_pt(29, 87, 70, 40), g2_pt(18, 35, 17, 99), 2, 59));
    assert(G2Point::smul_steps(g2_pt(29, 87, 70, 40), g2_pt(18, 35, 17, 99), 2, 59) == G2Point::smul_steps(g2_pt(29, 87, 70, 40), g2_pt(84, 54, 48, 91), 1, 58));
    assert(G2Point::smul_steps(g2_pt(29, 87, 70, 40), g2_pt(84, 54, 48, 91), 1, 58) == G2Point::smul_steps(g2_pt(31, 98, 62, 95), g2_pt(31, 98, 39, 6), 0, 57));
    crate::pairing_values::lemma_distort_at(31, 98, 62, 95, 1, 10, 2, 10);
    assert(col_point(8) == crate::pairing_values::g1p(1, 2));
}

/// `78 H` by double-and-add: defined, and mapped by `i -> 10` to `10 P`.
#[verifier::spinoff_prover]
proof fn lemma_wide_78()
    ensures
        G2Point::sgenerator().mul_defined(78),
        G2Point::sgenerator().smul(78) == g2_pt(96, 94, 80, 38),
        sproject(g2_pt(96, 94, 80, 38)) == col_point(10),
{
    lemma_addition_2();
    lemma_addition_9();
    lemma_wide_addition_55();
    lemma_double_0();
    lemma_double_1();
    lemma_double_2();
    lemma_double_3();
    lemma_double_4();
    lemma_double_5();
    lemma_double_6();
    lemma_cycle_steps(g2_pt(96, 94, 80, 38), g2_pt(31, 98, 39, 6), 57);
    G2Point::lemma_smul_steps_zero(g2_pt(96, 94, 80, 38), g2_pt(31, 98, 39, 6), 57);
    assert(G2Point::mul_steps_defined(g2_pt(42, 100, 84, 16), g2_pt(84, 54, 48, 91), 1, 58));
    assert(G2Point::mul_steps_defined(g2_pt(42, 100, 84, 16), g2_pt(18, 35, 17, 99), 2, 59));
    assert(G2Point::mul_steps_defined(g2_pt(42, 100, 84, 16), g2_pt(93, 48, 94, 99), 4, 60));
    assert(G2Point::mul_steps_defined(g2_pt(57, 46, 17, 52), g2_pt(18, 69, 94, 11), 9, 61));
    assert(G2Point::mul_steps_defined(g2_pt(38, 33, 61, 75), g2_pt(5, 72, 16, 44), 19, 62));
    assert(G2Point::mul_steps_defined(G2Point::Infinity, g2_pt(38, 33, 61, 75), 39, 63));
    assert(G2Point::mul_steps_defined(G2Point::Infinity, g2_pt(0, 3, 9, 49), 78, 64));
    assert(G2Point::smul_steps(G2Point::Infinity, g2_pt(0, 3, 9, 49), 78, 64) == G2Point::smul_steps(G2Point::Infinity, g2_pt(38, 33, 61, 75), 39, 63));
    assert(G2Point::smul_steps(G2Point::Infinity, g2_pt(38, 33, 61, 75), 39, 63) == G2Point::smul_steps(g2_pt(38, 33, 61, 75), g2_pt(5, 72, 16, 44), 19, 62));
    assert(G2Point::smul_steps(g2_pt(38, 33, 61, 75), g2_pt(5, 72, 16, 44), 19, 62) == G2Point::smul_steps(g2_pt(57, 46, 17, 52), g2_pt(18, 69, 94, 11), 9, 61));
    assert(G2Point::smul_steps(g2_pt(57, 46, 17, 52), g2_pt(18, 69, 94, 11), 9, 61) == G2Point::smul_steps(g2_pt(42, 100, 84, 16), g2_pt(93, 48, 94, 99), 4, 60));
    assert(G2Point::smul_steps(g2_pt(42, 100, 84, 16), g2_pt(93, 48, 94, 99), 4, 60) == G2Point::smul_steps(g2_pt(42, 100, 84, 16), g2_pt(18, 35, 17, 99), 2, 59));
    assert(G2Point::smul_steps(g2_pt(42, 100, 84, 16), g2_pt(18, 35, 17, 99), 2, 59) == G2Point::smul_steps(g2_pt(42, 100, 84, 16), g2_pt(84, 54, 48, 91), 1, 58));
    assert(G2Point::smul_steps(g2_pt(42, 100, 84, 16), g2_pt(84, 54, 48, 91), 1, 58) == G2Point::smul_steps(g2_pt(96, 94, 80, 38), g2_pt(31, 98, 39, 6), 0, 57));
    crate::pairing_values::lemma_distort_at(96, 94, 80, 38, 26, 10, 56, 4);
    assert(col_point(10) == crate::pairing_values::g1p(26, 56));
}

/// `79 H` by double-and-add: defined, and mapped by `i -> 10` to `11 P`.
#[verifier::spinoff_prover]
proof fn lemma_wide_79()
    ensures
        G2Point::sgenerator().mul_defined(79),
        G2Point::sgenerator().smul(79) == g2_pt(5, 76, 88, 15),
        sproject(g2_pt(5, 76, 88, 15)) == col_point(11),
{
    lemma_addition_0();
    lemma_addition_3();
    lemma_addition_10();
    lemma_wide_addition_56();
    lemma_double_0();
    lemma_double_1();
    lemma_double_2();
    lemma_double_3();
    lemma_double_4();
    lemma_double_5();
    lemma_double_6();
    lemma_cycle_steps(g2_pt(5, 76, 88, 15), g2_pt(31, 98, 39, 6), 57);
    G2Point::lemma_smul_steps_zero(g2_pt(5, 76, 88, 15), g2_pt(31, 98, 39, 6), 57);
    assert(G2Point::mul_steps_defined(g2_pt(71, 14, 32, 68), g2_pt(84, 54, 48, 91), 1, 58));
    assert(G2Point::mul_steps_defined(g2_pt(71, 14, 32, 68), g2_pt(18, 35, 17, 99), 2, 59));
    assert(G2Point::mul_steps_defined(g2_pt(71, 14, 32, 68), g2_pt(93, 48, 94, 99), 4, 60));
    assert(G2Point::mul_steps_defined(g2_pt(81, 47, 93, 16), g2_pt(18, 69, 94, 11), 9, 61));
    assert(G2Point::mul_steps_defined(g2_pt(19, 91, 88, 44), g2_pt(5, 72, 16, 44), 19, 62));
    assert(G2Point::mul_steps_defined(g2_pt(0, 3, 9, 49), g2_pt(38, 33, 61, 75), 39, 63));
    assert(G2Point::mul_steps_defined(G2Point::Infinity, g2_pt(0, 3, 9, 49), 79, 64));
    assert(G2Point::smul_steps(G2Point::Infinity, g2_pt(0, 3, 9, 49), 79, 64) == G2Point::smul_steps(g2_pt(0, 3, 9, 49), g2_pt(38, 33, 61, 75), 39, 63));
    assert(G2Point::smul_steps(g2_pt(0, 3, 9, 49), g2_pt(38, 33, 61, 75), 39, 63) == G2Point::smul_steps(g2_pt(19, 91, 88, 44), g2_pt(5, 72, 16, 44), 19, 62));
    assert(G2Point::smul_steps(g2_pt(19, 91, 88, 44), g2_pt(5, 72, 16, 44), 19, 62) == G2Point::smul_steps(g2_pt(81, 47, 93, 16), g2_pt(18, 69, 94, 11), 9, 61));
    assert(G2Point::smul_steps(g2_pt(81, 47, 93, 16), g2_pt(18, 69, 94, 11), 9, 61) == G2Point::smul_steps(g2_pt(71, 14, 32, 68), g2_pt(93, 48, 94, 99), 4, 60));
    assert(G2Point::smul_steps(g2_pt(71, 14, 32, 68), g2_pt(93, 48, 94, 99), 4, 60) == G2Point::smul_steps(g2_pt(71, 14, 32, 68), g2_pt(18, 35, 17, 99), 2, 59));
    assert(G2Point::smul_steps(g2_pt(71, 14, 32, 68), g2_pt(18, 35, 17, 99), 2, 59) == G2Point::smul_steps(g2_pt(71, 14, 32, 68), g2_pt(84, 54, 48, 91), 1, 58));
    assert(G2Point::smul_steps(g2_pt(71, 14, 32, 68), g2_pt(84, 54, 48, 91), 1, 58) == G2Point::smul_steps(g2_pt(5, 76, 88, 15), g2_pt(31, 98, 39, 6), 0, 57));
    crate::pairing_values::lemma_distort_at(5, 76, 88, 15, 58, 7, 36, 2);
    assert(col_point(11) == crate::pairing_values::g1p(58, 36));
}

/// `80 H` by double-and-add: defined, and mapped by `i -> 10` to `12 P`.
#[verifier::spinoff_prover]
proof fn lemma_wide_80()
    ensures
        G2Point::sgenerator().mul_defined(80),
        G2Point::sgenerator().smul(80) == g2_pt(61, 3, 38, 23),
        sproject(g2_pt(61, 3, 38, 23)) == col_point(12),
{
    lemma_wide_addition_57();
    lemma_double_0();
    lemma_double_1();
    lemma_double_2();
    lemma_double_3();
    lemma_double_4();
    lemma_double_5();
    lemma_double_6();
    lemma_cycle_steps(g2_pt(61, 3, 38, 23), g2_pt(31, 98, 39, 6), 57);
    G2Point::lemma_smul_steps_zero(g2_pt(61, 3, 38, 23), g2_pt(31, 98, 39, 6), 57);
    assert(G2Point::mul_steps_defined(g2_pt(93, 48, 94, 99), g2_pt(84, 54, 48, 91), 1, 58));
    assert(G2Point::mul_steps_defined(g2_pt(93, 48, 94, 99), g2_pt(18, 35, 17, 99), 2, 59));
    assert(G2Point::mul_steps_defined(G2Point::Infinity, g2_pt(93, 48, 94, 99), 5, 60));
    assert(G2Point::mul_steps_defined(G2Point::Infinity, g2_pt(18, 69, 94, 11), 10, 61));
    assert(G2Point::mul_steps_defined(G2Point::Infinity, g2_pt(5, 72, 16, 44), 20, 62));
    assert(G2Point::mul_steps_defined(G2Point::Infinity, g2_pt(38, 33, 61, 75), 40, 63));
    assert(G2Point::mul_steps_defined(G2Point::Infinity, g2_pt(0, 3, 9, 49), 80, 64));
    assert(G2Point::smul_steps(G2Point::Infinity, g2_pt(0, 3, 9, 49), 80, 64) == G2Point::smul_steps(G2Point::Infinity, g2_pt(38, 33, 61, 75), 40, 63));
    assert(G2Point::smul_steps(G2Point::Infinity, g2_pt(38, 33, 61, 75), 40, 63) == G2Point::smul_steps(G2Point::Infinity, g2_pt(5, 72, 16, 44), 20, 62));
    assert(G2Point::smul_steps(G2Point::Infinity, g2_pt(5, 72, 16, 44), 20, 62) == G2Point::smul_steps(G2Point::Infinity, g2_pt(18, 69, 94, 11), 10, 61));
    assert(G2Point::smul_steps(G2Point::Infinity, g2_pt(18, 69, 94, 11), 10, 61) == G2Point::smul_steps(G2Point::Infinity, g2_pt(93, 48, 94, 99), 5, 60));
    assert(G2Point::smul_steps(G2Point::Infinity, g2_pt(93, 48, 94, 99), 5, 60) == G2Point::smul_steps(g2_pt(93, 48, 94, 99), g2_pt(18, 35, 17, 99), 2, 59));
    assert(G2Point::smul_steps(g2_pt(93, 48, 94, 99), g2_pt(18, 35, 17, 99), 2, 59) == G2Point::smul_steps(g2_pt(93, 48, 94, 99), g2_pt(84, 54, 48, 91), 1, 58));
    assert(G2Point::smul_steps(g2_pt(93, 48, 94, 99), g2_pt(84, 54, 48, 91), 1, 58) == G2Point::smul_steps(g2_pt(61, 3, 38, 23), g2_pt(31, 98, 39, 6), 0, 57));
    crate::pairing_values::lemma_distort_at(61, 3, 38, 23, 91, 0, 66, 2);
    assert(col_point(12) == crate::pairing_values::g1p(91, 66));
}

/// `81 H` by double-and-add: defined, and mapped by `i -> 10` to `13 P`.
#[verifier::spinoff_prover]
proof fn lemma_wide_81()
    ensures
        G2Point::sgenerator().mul_defined(81),
        G2Point::sgenerator().smul(81) == g2_pt(36, 63, 46, 62),
        sproject(g2_pt(36, 63, 46, 62)) == col_point(13),
{
    lemma_wide_addition_0();
    lemma_wide_addition_58();
    lemma_double_0();
    lemma_double_1();
    lemma_double_2();
    lemma_double_3();
    lemma_double_4();
    lemma_double_5();
    lemma_double_6();
    lemma_cycle_steps(g2_pt(36, 63, 46, 62), g2_pt(31, 98, 39, 6), 57);
    G2Point::lemma_smul_steps_zero(g2_pt(36, 63, 46, 62), g2_pt(31, 98, 39, 6), 57);
    assert(G2Point::mul_steps_defined(g2_pt(88, 97, 86, 52), g2_pt(84, 54, 48, 91), 1, 58));
    assert(G2Point::mul_steps_defined(g2_pt(88, 97, 86, 52), g2_pt(18, 35, 17, 99), 2, 59));
    assert(G2Point::mul_steps_defined(g2_pt(0, 3, 9, 49), g2_pt(93, 48, 94, 99), 5, 60));
    assert(G2Point::mul_steps_defined(g2_pt(0, 3, 9, 49), g2_pt(18, 69, 94, 11), 10, 61));
    assert(G2Point::mul_steps_defined(g2_pt(0, 3, 9, 49), g2_pt(5, 72, 16, 44), 20, 62));
    assert(G2Point::mul_steps_defined(g2_pt(0, 3, 9, 49), g2_pt(38, 33, 61, 75), 40, 63));
    assert(G2Point::mul_steps_defined(G2Point::Infinity, g2_pt(0, 3, 9, 49), 81, 64));
    assert(G2Point::smul_steps(G2Point::Infinity, g2_pt(0, 3, 9, 49), 81, 64) == G2Point::smul_steps(g2_pt(0, 3, 9, 49), g2_pt(38, 33, 61, 75), 40, 63));
    assert(G2Point::smul_steps(g2_pt(0, 3, 9, 49), g2_pt(38, 33, 61, 75), 40, 63) == G2Point::smul_steps(g2_pt(0, 3, 9, 49), g2_pt(5, 72, 16, 44), 20, 62));
    assert(G2Point::smul_steps(g2_pt(0, 3, 9, 49), g2_pt(5, 72, 16, 44), 20, 62) == G2Point::smul_steps(g2_pt(0, 3, 9, 49), g2_pt(18, 69, 94, 11), 10, 61));
    assert(G2Point::smul_steps(g2_pt(0, 3, 9, 49), g2_pt(18, 69, 94, 11), 10, 61) == G2Point::smul_steps(g2_pt(0, 3, 9, 49), g2_pt(93, 48, 94, 99), 5, 60));
    assert(G2Point::smul_steps(g2_pt(0, 3, 9, 49), g2_pt(93, 48, 94, 99), 5, 60) == G2Point::smul_steps(g2_pt(88, 97, 86, 52), g2_pt(18, 35, 17, 99), 2, 59));
    assert(G2Point::smul_steps(g2_pt(88, 97, 86, 52), g2_pt(18, 35, 17, 99), 2, 59) == G2Point::smul_steps(g2_pt(88, 97, 86, 52), g2_pt(84, 54, 48, 91), 1, 58));
    assert(G2Point::smul_steps(g2_pt(88, 97, 86, 52), g2_pt(84, 54, 48, 91), 1, 58) == G2Point::smul_steps(g2_pt(36, 63, 46, 62), g2_pt(31, 98, 39, 6), 0, 57));
    crate::pairing_values::lemma_distort_at(36, 63, 46, 62, 60, 6, 60, 6);
    assert(col_point(13) == crate::pairing_values::g1p(60, 60));
}

/// `82 H` by double-and-add: defined, and mapped by `i -> 10` to `14 P`.
#[verifier::spinoff_prover]
proof fn lemma_wide_82()
    ensures
        G2Point::sgenerator().mul_defined(82),
        G2Point::sgenerator().smul(82) == g2_pt(88, 55, 79, 67),
        sproject(g2_pt(88, 55, 79, 67)) == col_point(14),
{
    lemma_wide_addition_1();
    lemma_wide_addition_59();
    lemma_double_0();
    lemma_double_1();
    lemma_double_2();
    lemma_double_3();
    lemma_double_4();
    lemma_double_5();
    lemma_double_6();
    lemma_cycle_steps(g2_pt(88, 55, 79, 67), g2_pt(31, 98, 39, 6), 57);
    G2Point::lemma_smul_steps_zero(g2_pt(88, 55, 79, 67), g2_pt(31, 98, 39, 6), 57);
    assert(G2Point::mul_steps_defined(g2_pt(47, 93, 36, 90), g2_pt(84, 54, 48, 91), 1, 58));
    assert(G2Point::mul_steps_defined(g2_pt(47, 93, 36, 90), g2_pt(18, 35, 17, 99), 2, 59));
    assert(G2Point::mul_steps_defined(g2_pt(38, 33, 61, 75), g2_pt(93, 48, 94, 99), 5, 60));
    assert(G2Point::mul_steps_defined(g2_pt(38, 33, 61, 75), g2_pt(18, 69, 94, 11), 10, 61));
    assert(G2Point::mul_steps_defined(g2_pt(38, 33, 61, 75), g2_pt(5, 72, 16, 44), 20, 62));
    assert(G2Point::mul_steps_defined(G2Point::Infinity, g2_pt(38, 33, 61, 75), 41, 63));
    assert(G2Point::mul_steps_defined(G2Point::Infinity, g2_pt(0, 3, 9, 49), 82, 64));
    assert(G2Point::smul_steps(G2Point::Infinity, g2_pt(0, 3, 9, 49), 82, 64) == G2Point::smul_steps(G2Point::Infinity, g2_pt(38, 33, 61, 75), 41, 63));
    assert(G2Point::smul_steps(G2Point::Infinity, g2_pt(38, 33, 61, 75), 41, 63) == G2Point::smul_steps(g2_pt(38, 33, 61, 75), g2_pt(5, 72, 16, 44), 20, 62));
    assert(G2Point::smul_steps(g2_pt(38, 33, 61, 75), g2_pt(5, 72, 16, 44), 20, 62) == G2Point::smul_steps(g2_pt(38, 33, 61, 75), g2_pt(18, 69, 94, 11), 10, 61));
    assert(G2Point::smul_steps(g2_pt(38, 33, 61, 75), g2_pt(18, 69, 94, 11), 10, 61) == G2Point::smul_steps(g2_pt(38, 33, 61, 75), g2_pt(93, 48, 94, 99), 5, 60));
    assert(G2Point::smul_steps(g2_pt(38, 33, 61, 75), g2_pt(93, 48, 94, 99), 5, 60) == G2Point::smul_steps(g2_pt(47, 93, 36, 90), g2_pt(18, 35, 17, 99), 2, 59));
    assert(G2Point::smul_steps(g2_pt(47, 93, 36, 90), g2_pt(18, 35, 17, 99), 2, 59) == G2Point::smul_steps(g2_pt(47, 93, 36, 90), g2_pt(84, 54, 48, 91), 1, 58));
    assert(G2Point::smul_steps(g2_pt(47, 93, 36, 90), g2_pt(84, 54, 48, 91), 1, 58) == G2Point::smul_steps(g2_pt(88, 55, 79, 67), g2_pt(31, 98, 39, 6), 0, 57));
    crate::pairing_values::lemma_distort_at(88, 55, 79, 67, 32, 6, 42, 7);
    assert(col_point(14) == crate::pairing_values::g1p(32, 42));
}

/// `83 H` by double-and-add: defined, and mapped by `i -> 10` to `15 P`.
#[verifier::spinoff_prover]
proof fn lemma_wide_83()
    ensures
        G2Point::sgenerator().mul_defined(83),
        G2Point::sgenerator().smul(83) == g2_pt(91, 12, 21, 59),
        sproject(g2_pt(91, 12, 21, 59)) == col_point(15),
{
    lemma_addition_0();
    lemma_wide_addition_2();
    lemma_wide_addition_60();
    lemma_double_0();
    lemma_double_1();
    lemma_double_2();
    lemma_double_3();
    lemma_double_4();
    lemma_double_5();
    lemma_double_6();
    lemma_cycle_steps(g2_pt(91, 12, 21, 59), g2_pt(31, 98, 39, 6), 57);
    G2Point::lemma_smul_steps_zero(g2_pt(91, 12, 21, 59), g2_pt(31, 98, 39, 6), 57);
    assert(G2Point::mul_steps_defined(g2_pt(91, 12, 80, 42), g2_pt(84, 54, 48, 91), 1, 58));
    assert(G2Point::mul_steps_defined(g2_pt(91, 12, 80, 42), g2_pt(18, 35, 17, 99), 2, 59));
    assert(G2Point::mul_steps_defined(g2_pt(19, 91, 88, 44), g2_pt(93, 48, 94, 99), 5, 60));
    assert(G2Point::mul_steps_defined(g2_pt(19, 91, 88, 44), g2_pt(18, 69, 94, 11), 10, 61));
    assert(G2Point::mul_steps_defined(g2_pt(19, 91, 88, 44), g2_pt(5, 72, 16, 44), 20, 62));
    assert(G2Point::mul_steps_defined(g2_pt(0, 3, 9, 49), g2_pt(38, 33, 61, 75), 41, 63));
    assert(G2Point::mul_steps_defined(G2Point::Infinity, g2_pt(0, 3, 9, 49), 83, 64));
    assert(G2Point::smul_steps(G2Point::Infinity, g2_pt(0, 3, 9, 49), 83, 64) == G2Point::smul_steps(g2_pt(0, 3, 9, 49), g2_pt(38, 33, 61, 75), 41, 63));
    assert(G2Point::smul_steps(g2_pt(0, 3, 9, 49), g2_pt(38, 33, 61, 75), 41, 63) == G2Point::smul_steps(g2_pt(19, 91, 88, 44), g2_pt(5, 72, 16, 44), 20, 62));
    assert(G2Point::smul_steps(g2_pt(19, 91, 88, 44), g2_pt(5, 72, 16, 44), 20, 62) == G2Point::smul_steps(g2_pt(19, 91, 88, 44), g2_pt(18, 69, 94, 11), 10, 61));
    assert(G2Point::smul_steps(g2_pt(19, 91, 88, 44), g2_pt(18, 69, 94, 11), 10, 61) == G2Point::smul_steps(g2_pt(19, 91, 88, 44), g2_pt(93, 48, 94, 99), 5, 60));
    assert(G2Point::smul_steps(g2_pt(19, 91, 88, 44), g2_pt(93, 48, 94, 99), 5, 60) == G2Point::smul_steps(g2_pt(91, 12, 80, 42), g2_pt(18, 35, 17, 99), 2, 59));
    assert(G2Point::smul_steps(g2_pt(91, 12, 80, 42), g2_pt(18, 35, 17, 99), 2, 59) == G2Point::smul_steps(g2_pt(91, 12, 80, 42), g2_pt(84, 54, 48, 91), 1, 58));
    assert(G2Point::smul_steps(g2_pt(91, 12, 80, 42), g2_pt(84, 54, 48, 91), 1, 58) == G2Point::smul_steps(g2_pt(91, 12, 21, 59), g2_pt(31, 98, 39, 6), 0, 57));
    crate::pairing_values::lemma_distort_at(91, 12, 21, 59, 9, 2, 5, 6);
    assert(col_point(15) == crate::pairing_values::g1p(9, 5));
}

/// `84 H` by double-and-add: defined, and mapped by `i -> 10` to `16 P`.
#[verifier::spinoff_prover]
proof fn lemma_wide_84()
    ensures
        G2Point::sgenerator().mul_defined(84),
        G2Point::sgenerator().smul(84) == g2_pt(47, 93, 65, 11),
        sproject(g2_pt(47, 93, 65, 11)) == col_point(16),
{
    lemma_wide_addition_3();
    lemma_wide_addition_61();
    lemma_double_0();
    lemma_double_1();
    lemma_double_2();
    lemma_double_3();
    lemma_double_4();
    lemma_double_5();
    lemma_double_6();
    lemma_cycle_steps(g2_pt(47, 93, 65, 11), g2_pt(31, 98, 39, 6), 57);
    G2Point::lemma_smul_steps_zero(g2_pt(47, 93, 65, 11), g2_pt(31, 98, 39, 6), 57);
    assert(G2Point::mul_steps_defined(g2_pt(88, 55, 22, 34), g2_pt(84, 54, 48, 91), 1, 58));
    assert(G2Point::mul_steps_defined(g2_pt(88, 55, 22, 34), g2_pt(18, 35, 17, 99), 2, 59));
    assert(G2Point::mul_steps_defined(g2_pt(5, 72, 16, 44), g2_pt(93, 48, 94, 99), 5, 60));
    assert(G2Point::mul_steps_defined(g2_pt(5, 72, 16, 44), g2_pt(18, 69, 94, 11), 10, 61));
    assert(G2Point::mul_steps_defined(G2Point::Infinity, g2_pt(5, 72, 16, 44), 21, 62));
    assert(G2Point::mul_steps_defined(G2Point::Infinity, g2_pt(38, 33, 61, 75), 42, 63));
    assert(G2Point::mul_steps_defined(G2Point::Infinity, g2_pt(0, 3, 9, 49), 84, 64));
    assert(G2Point::smul_steps(G2Point::Infinity, g2_pt(0, 3, 9, 49), 84, 64) == G2Point::smul_steps(G2Point::Infinity, g2_pt(38, 33, 61, 75), 42, 63));
    assert(G2Point::smul_steps(G2Point::Infinity, g2_pt(38, 33, 61, 75), 42, 63) == G2Point::smul_steps(G2Point::Infinity, g2_pt(5, 72, 16, 44), 21, 62));
    assert(G2Point::smul_steps(G2Point::Infinity, g2_pt(5, 72, 16, 44), 21, 62) == G2Point::smul_steps(g2_pt(5, 72, 16, 44), g2_pt(18, 69, 94, 11), 10, 61));
    assert(G2Point::smul_steps(g2_pt(5, 72, 16, 44), g2_pt(18, 69, 94, 11), 10, 61) == G2Point::smul_steps(g2_pt(5, 72, 16, 44), g2_pt(93, 48, 94, 99), 5, 60));
    assert(G2Point::smul_steps(g2_pt(5, 72, 16, 44), g2_pt(93, 48, 94, 99), 5, 60) == G2Point::smul_steps(g2_pt(88, 55, 22, 34), g2_pt(18, 35, 17, 99), 2, 59));
    assert(G2Point::smul_steps(g2_pt(88, 55, 22, 34), g2_pt(18, 35, 17, 99), 2, 59) == G2Point::smul_steps(g2_pt(88, 55, 22, 34), g2_pt(84, 54, 48, 91), 1, 58));
    assert(G2Point::smul_steps(g2_pt(88, 55, 22, 34), g2_pt(84, 54, 48, 91), 1, 58) == G2Point::smul_steps(g2_pt(47, 93, 65, 11), g2_pt(31, 98, 39, 6), 0, 57));
    crate::pairing_values::lemma_distort_at(47, 93, 65, 11, 68, 9, 74, 1);
    assert(col_point(16) == crate::pairing_values::g1p(68, 74));
}

/// `85 H` by double-and-add: defined, and mapped by `i -> 10` to `17 P`.
#[verifier::spinoff_prover]
proof fn lemma_wide_85()
    ensures
        G2Point::sgenerator().mul_defined(85),
        G2Point::sgenerator().smul(85) == g2_pt(88, 97, 15, 49),
        sproject(g2_pt(88, 97, 15, 49)) == col_point(17),
{
    lemma_addition_1();
    lemma_wide_addition_4();
    lemma_wide_addition_62();
    lemma_double_0();
    lemma_double_1();
    lemma_double_2();
    lemma_double_3();
    lemma_double_4();
    lemma_double_5();
    lemma_double_6();
    lemma_cycle_steps(g2_pt(88, 97, 15, 49), g2_pt(31, 98, 39, 6), 57);
    G2Point::lemma_smul_steps_zero(g2_pt(88, 97, 15, 49), g2_pt(31, 98, 39, 6), 57);
    assert(G2Point::mul_steps_defined(g2_pt(36, 63, 55, 39), g2_pt(84, 54, 48, 91), 1, 58));
    assert(G2Point::mul_steps_defined(g2_pt(36, 63, 55, 39), g2_pt(18, 35, 17, 99), 2, 59));
    assert(G2Point::mul_steps_defined(g2_pt(69, 33, 71, 86), g2_pt(93, 48, 94, 99), 5, 60));
    assert(G2Point::mul_steps_defined(g2_pt(69, 33, 71, 86), g2_pt(18, 69, 94, 11), 10, 61));
    assert(G2Point::mul_steps_defined(g2_pt(0, 3, 9, 49), g2_pt(5, 72, 16, 44), 21, 62));
    assert(G2Point::mul_steps_defined(g2_pt(0, 3, 9, 49), g2_pt(38, 33, 61, 75), 42, 63));
    assert(G2Point::mul_steps_defined(G2Point::Infinity, g2_pt(0, 3, 9, 49), 85, 64));
    assert(G2Point::smul_steps(G2Point::Infinity, g2_pt(0, 3, 9, 49), 85, 64) == G2Point::smul_steps(g2_pt(0, 3, 9, 49), g2_pt(38, 33, 61, 75), 42, 63));
    assert(G2Point::smul_steps(g2_pt(0, 3, 9, 49), g2_pt(38, 33, 61, 75), 42, 63) == G2Point::smul_steps(g2_pt(0, 3, 9, 49), g2_pt(5, 72, 16, 44), 21, 62));
    assert(G2Point::smul_steps(g2_pt(0, 3, 9, 49), g2_pt(5, 72, 16, 44), 21, 62) == G2Point::smul_steps(g2_pt(69, 33, 71, 86), g2_pt(18, 69, 94, 11), 10, 61));
    assert(G2Point::smul_steps(g2_pt(69, 33, 71, 86), g2_pt(18, 69, 94, 11), 10, 61) == G2Point::smul_steps(g2_pt(69, 33, 71, 86), g2_pt(93, 48, 94, 99), 5, 60));
    assert(G2Point::smul_steps(g2_pt(69, 33, 71, 86), g2_pt(93, 48, 94, 99), 5, 60) == G2Point::smul_steps(g2_pt(36, 63, 55, 39), g2_pt(18, 35, 17, 99), 2, 59));
    assert(G2Point::smul_steps(g2_pt(36, 63, 55, 39), g2_pt(18, 35, 17, 99), 2, 59) == G2Point::smul_steps(g2_pt(36, 63, 55, 39), g2_pt(84, 54, 48, 91), 1, 58));
    assert(G2Point::smul_steps(g2_pt(36, 63, 55, 39), g2_pt(84, 54, 48, 91), 1, 58) == G2Point::smul_steps(g2_pt(88, 97, 15, 49), g2_pt(31, 98, 39, 6), 0, 57));
    crate::pairing_values::lemma_distort_at(88, 97, 15, 49, 48, 10, 0, 5);
    assert(col_point(17) == crate::pairing_values::g1p(48, 0));
}

/// `86 H` by double-and-add: defined, and mapped by `i -> 10` to `18 P`.
#[verifier::spinoff_prover]
proof fn lemma_wide_86()
    ensures
        G2Point::sgenerator().mul_defined(86),
        G2Point::sgenerator().smul(86) == g2_pt(93, 48, 7, 2),
        sproject(g2_pt(93, 48, 7, 2)) == col_point(18),
{
    lemma_addition_2();
    lemma_wide_addition_5();
    lemma_wide_addition_63();
    lemma_double_0();
    lemma_double_1();
    lemma_double_2();
    lemma_double_3();
    lemma_double_4();
    lemma_double_5();
    lemma_double_6();
    lemma_cycle_steps(g2_pt(93, 48, 7, 2), g2_pt(31, 98, 39, 6), 57);
    G2Point::lemma_smul_steps_zero(g2_pt(93, 48, 7, 2), g2_pt(31, 98, 39, 6), 57);
    assert(G2Point::mul_steps_defined(g2_pt(61, 3, 63, 78), g2_pt(84, 54, 48, 91), 1, 58));
    assert(G2Point::mul_steps_defined(g2_pt(61, 3, 63, 78), g2_pt(18, 35, 17, 99), 2, 59));
    assert(G2Point::mul_steps_defined(g2_pt(57, 46, 17, 52), g2_pt(93, 48, 94, 99), 5, 60));
    assert(G2Point::mul_steps_defined(g2_pt(57, 46, 17, 52), g2_pt(18, 69, 94, 11), 10, 61));
    assert(G2Point::mul_steps_defined(g2_pt(38, 33, 61, 75), g2_pt(5, 72, 16, 44), 21, 62));
    assert(G2Point::mul_steps_defined(G2Point::Infinity, g2_pt(38, 33, 61, 75), 43, 63));
    assert(G2Point::mul_steps_defined(G2Point::Infinity, g2_pt(0, 3, 9, 49), 86, 64));
    assert(G2Point::smul_steps(G2Point::Infinity, g2_pt(0, 3, 9, 49), 86, 64) == G2Point::smul_steps(G2Point::Infinity, g2_pt(38, 33, 61, 75), 43, 63));
    assert(G2Point::smul_steps(G2Point::Infinity, g2_pt(38, 33, 61, 75), 43, 63) == G2Point::smul_steps(g2_pt(38, 33, 61, 75), g2_pt(5, 72, 16, 44), 21, 62));
    assert(G2Point::smul_steps(g2_pt(38, 33, 61, 75), g2_pt(5, 72, 16, 44), 21, 62) == G2Point::smul_steps(g2_pt(57, 46, 17, 52), g2_pt(18, 69, 94, 11), 10, 61));
    assert(G2Point::smul_steps(g2_pt(57, 46, 17, 52), g2_pt(18, 69, 94, 11), 10, 61) == G2Point::smul_steps(g2_pt(57, 46, 17, 52), g2_pt(93, 48, 94, 99), 5, 60));
    assert(G2Point::smul_steps(g2_pt(57, 46, 17, 52), g2_pt(93, 48, 94, 99), 5, 60) == G2Point::smul_steps(g2_pt(61, 3, 63, 78), g2_pt(18, 35, 17, 99), 2, 59));
    assert(G2Point::smul_steps(g2_pt(61, 3, 63, 78), g2_pt(18, 35, 17, 99), 2, 59) == G2Point::smul_steps(g2_pt(61, 3, 63, 78), g2_pt(84, 54, 48, 91), 1, 58));
    assert(G2Point::smul_steps(g2_pt(61, 3, 63, 78), g2_pt(84, 54, 48, 91), 1, 58) == G2Point::smul_steps(g2_pt(93, 48, 7, 2), g2_pt(31, 98, 39, 6), 0, 57));
    crate::pairing_values::lemma_distort_at(93, 48, 7, 2, 68, 5, 27, 0);
    assert(col_point(18) == crate::pairing_values::g1p(68, 27));
}

/// `87 H` by double-and-add: defined, and mapped by `i -> 10` to `19 P`.
#[verifier::spinoff_prover]
proof fn lemma_wide_87()
    ensures
        G2Point::sgenerator().mul_defined(87),
        G2Point::sgenerator().smul(87) == g2_pt(71, 14, 69, 33),
        sproject(g2_pt(71, 14, 69, 33)) == col_point(19),
{
    lemma_addition_0();
    lemma_addition_3();
    lemma_wide_addition_6();
    lemma_wide_addition_64();
    lemma_double_0();
    lemma_double_1();
    lemma_double_2();
    lemma_double_3();
    lemma_double_4();
    lemma_double_5();
    lemma_double_6();
    lemma_cycle_steps(g2_pt(71, 14, 69, 33), g2_pt(31, 98, 39, 6), 57);
    G2Point::lemma_smul_steps_zero(g2_pt(71, 14, 69, 33), g2_pt(31, 98, 39, 6), 57);
    assert(G2Point::mul_steps_defined(g2_pt(5, 76, 13, 86), g2_pt(84, 54, 48, 91), 1, 58));
    assert(G2Point::mul_steps_defined(g2_pt(5, 76, 13, 86), g2_pt(18, 35, 17, 99), 2, 59));
    assert(G2Point::mul_steps_defined(g2_pt(81, 47, 93, 16), g2_pt(93, 48, 94, 99), 5, 60));
    assert(G2Point::mul_steps_defined(g2_pt(81, 47, 93, 16), g2_pt(18, 69, 94, 11), 10, 61));
    assert(G2Point::mul_steps_defined(g2_pt(19, 91, 88, 44), g2_pt(5, 72, 16, 44), 21, 62));
    assert(G2Point::mul_steps_defined(g2_pt(0, 3, 9, 49), g2_pt(38, 33, 61, 75), 43, 63));
    assert(G2Point::mul_steps_defined(G2Point::Infinity, g2_pt(0, 3, 9, 49), 87, 64));
    assert(G2Point::smul_steps(G2Point::Infinity, g2_pt(0, 3, 9, 49), 87, 64) == G2Point::smul_steps(g2_pt(0, 3, 9, 49), g2_pt(38, 33, 61, 75), 43, 63));
    assert(G2Point::smul_steps(g2_pt(0, 3, 9, 49), g2_pt(38, 33, 61, 75), 43, 63) == G2Point::smul_steps(g2_pt(19, 91, 88, 44), g2_pt(5, 72, 16, 44), 21, 62));
    assert(G2Point::smul_steps(g2_pt(19, 91, 88, 44), g2_pt(5, 72, 16, 44), 21, 62) == G2Point::smul_steps(g2_pt(81, 47, 93, 16), g2_pt(18, 69, 94, 11), 10, 61));
    assert(G2Point::smul_steps(g2_pt(81, 47, 93, 16), g2_pt(18, 69, 94, 11), 10, 61) == G2Point::smul_steps(g2_pt(81, 47, 93, 16), g2_pt(93, 48, 94, 99), 5, 60));
    assert(G2Point::smul_steps(g2_pt(81, 47, 93, 16), g2_pt(93, 48, 94, 99), 5, 60) == G2Point::smul_steps(g2_pt(5, 76, 13, 86), g2_pt(18, 35, 17, 99), 2, 59));
    assert(G2Point::smul_steps(g2_pt(5, 76, 13, 86), g2_pt(18, 35, 17, 99), 2, 59) == G2Point::smul_steps(g2_pt(5, 76, 13, 86), g2_pt(84, 54, 48, 91), 1, 58));
    assert(G2Point::smul_steps(g2_pt(5, 76, 13, 86), g2_pt(84, 54, 48, 91), 1, 58) == G2Point::smul_steps(g2_pt(71, 14, 69, 33), g2_pt(31, 98, 39, 6), 0, 57));
    crate::pairing_values::lemma_distort_at(71, 14, 69, 33, 9, 2, 96, 3);
    assert(col_point(19) == crate::pairing_values::g1p(9, 96));
}

/// `88 H` by double-and-add: defined, and mapped by `i -> 10` to `20 P`.
#[verifier::spinoff_prover]
proof fn lemma_wide_88()
    ensures
        G2Point::sgenerator().mul_defined(88),
        G2Point::sgenerator().smul(88) == g2_pt(42, 100, 17, 85),
        sproject(g2_pt(42, 100, 17, 85)) == col_point(20),
{
    lemma_wide_addition_7();
    lemma_wide_addition_65();
    lemma_double_0();
    lemma_double_1();
    lemma_double_2();
    lemma_double_3();
    lemma_double_4();
    lemma_double_5();
    lemma_double_6();
    lemma_cycle_steps(g2_pt(42, 100, 17, 85), g2_pt(31, 98, 39, 6), 57);
    G2Point::lemma_smul_steps_zero(g2_pt(42, 100, 17, 85), g2_pt(31, 98, 39, 6), 57);
    assert(G2Point::mul_steps_defined(g2_pt(96, 94, 21, 63), g2_pt(84, 54, 48, 91), 1, 58));
    assert(G2Point::mul_steps_defined(g2_pt(96, 94, 21, 63), g2_pt(18, 35, 17, 99), 2, 59));
    assert(G2Point::mul_steps_defined(g2_pt(18, 69, 94, 11), g2_pt(93, 48, 94, 99), 5, 60));
    assert(G2Point::mul_steps_defined(G2Point::Infinity, g2_pt(18, 69, 94, 11), 11, 61));
    assert(G2Point::mul_steps_defined(G2Point::Infinity, g2_pt(5, 72, 16, 44), 22, 62));
    assert(G2Point::mul_steps_defined(G2Point::Infinity, g2_pt(38, 33, 61, 75), 44, 63));
    assert(G2Point::mul_steps_defined(G2Point::Infinity, g2_pt(0, 3, 9, 49), 88, 64));
    assert(G2Point::smul_steps(G2Point::Infinity, g2_pt(0, 3, 9, 49), 88, 64) == G2Point::smul_steps(G2Point::Infinity, g2_pt(38, 33, 61, 75), 44, 63));
    assert(G2Point::smul_steps(G2Point::Infinity, g2_pt(38, 33, 61, 75), 44, 63) == G2Point::smul_steps(G2Point::Infinity, g2_pt(5, 72, 16, 44), 22, 62));
    assert(G2Point::smul_steps(G2Point::Infinity, g2_pt(5, 72, 16, 44), 22, 62) == G2Point::smul_steps(G2Point::Infinity, g2_pt(18, 69, 94, 11), 11, 61));
    assert(G2Point::smul_steps(G2Point::Infinity, g2_pt(18, 69, 94, 11), 11, 61) == G2Point::smul_steps(g2_pt(18, 69, 94, 11), g2_pt(93, 48, 94, 99), 5, 60));
    assert(G2Point::smul_steps(g2_pt(18, 69, 94, 11), g2_pt(93, 48, 94, 99), 5, 60) == G2Point::smul_steps(g2_pt(96, 94, 21, 63), g2_pt(18, 35, 17, 99), 2, 59));
    assert(G2Point::smul_steps(g2_pt(96, 94, 21, 63), g2_pt(18, 35, 17, 99), 2, 59) == G2Point::smul_steps(g2_pt(96, 94, 21, 63), g2_pt(84, 54, 48, 91), 1, 58));
    assert(G2Point::smul_steps(g2_pt(96, 94, 21, 63), g2_pt(84, 54, 48, 91), 1, 58) == G2Point::smul_steps(g2_pt(42, 100, 17, 85), g2_pt(31, 98, 39, 6), 0, 57));
    crate::pairing_values::lemma_distort_at(42, 100, 17, 85, 32, 10, 59, 8);
    assert(col_point(20) == crate::pairing_values::g1p(32, 59));
}

/// `89 H` by double-and-add: defined, and mapped by `i -> 10` to `21 P`.
#[verifier::spinoff_prover]
proof fn lemma_wide_89()
    ensures
        G2Point::sgenerator().mul_defined(89),
        G2Point::sgenerator().smul(89) == g2_pt(4, 46, 98, 65),
        sproject(g2_pt(4, 46, 98, 65)) == col_point(21),
{
    lemma_addition_4();
    lemma_wide_addition_8();
    lemma_wide_addition_66();
    lemma_double_0();
    lemma_double_1();
    lemma_double_2();
    lemma_double_3();
    lemma_double_4();
    lemma_double_5();
    lemma_double_6();
    lemma_cycle_steps(g2_pt(4, 46, 98, 65), g2_pt(31, 98, 39, 6), 57);
    G2Point::lemma_smul_steps_zero(g2_pt(4, 46, 98, 65), g2_pt(31, 98, 39, 6), 57);
    assert(G2Point::mul_steps_defined(g2_pt(68, 31, 10, 9), g2_pt(84, 54, 48, 91), 1, 58));
    assert(G2Point::mul_steps_defined(g2_pt(68, 31, 10, 9), g2_pt(18, 35, 17, 99), 2, 59));
    assert(G2Point::mul_steps_defined(g2_pt(83, 80, 84, 22), g2_pt(93, 48, 94, 99), 5, 60));
    assert(G2Point::mul_steps_defined(g2_pt(0, 3, 9, 49), g2_pt(18, 69, 94, 11), 11, 61));
    assert(G2Point::mul_steps_defined(g2_pt(0, 3, 9, 49), g2_pt(5, 72, 16, 44), 22, 62));
    assert(G2Point::mul_steps_defined(g2_pt(0, 3, 9, 49), g2_pt(38, 33, 61, 75), 44, 63));
    assert(G2Point::mul_steps_defined(G2Point::Infinity, g2_pt(0, 3, 9, 49), 89, 64));
    assert(G2Point::smul_steps(G2Point::Infinity, g2_pt(0, 3, 9, 49), 89, 64) == G2Point::smul_steps(g2_pt(0, 3, 9, 49), g2_pt(38, 33, 61, 75), 44, 63));
    assert(G2Point::smul_steps(g2_pt(0, 3, 9, 49), g2_pt(38, 33, 61, 75), 44, 63) == G2Point::smul_steps(g2_pt(0, 3, 9, 49), g2_pt(5, 72, 16, 44), 22, 62));
    assert(G2Point::smul_steps(g2_pt(0, 3, 9, 49), g2_pt(5, 72, 16, 44), 22, 62) == G2Point::smul_steps(g2_pt(0, 3, 9, 49), g2_pt(18, 69, 94, 11), 11, 61));
    assert(G2Point::smul_steps(g2_pt(0, 3, 9, 49), g2_pt(18, 69, 94, 11), 11, 61) == G2Point::smul_steps(g2_pt(83, 80, 84, 22), g2_pt(93, 48, 94, 99), 5, 60));
    assert(G2Point::smul_steps(g2_pt(83, 80, 84, 22), g2_pt(93, 48, 94, 99), 5, 60) == G2Point::smul_steps(g2_pt(68, 31, 10, 9), g2_pt(18, 35, 17, 99), 2, 59));
    assert(G2Point::smul_steps(g2_pt(68, 31, 10, 9), g2_pt(18, 35, 17, 99), 2, 59) == G2Point::smul_steps(g2_pt(68, 31, 10, 9), g2_pt(84, 54, 48, 91), 1, 58));
    assert(G2Point::smul_steps(g2_pt(68, 31, 10, 9), g2_pt(84, 54, 48, 91), 1, 58) == G2Point::smul_steps(g2_pt(4, 46, 98, 65), g2_pt(31, 98, 39, 6), 0, 57));
    crate::pairing_values::lemma_distort_at(4, 46, 98, 65, 60, 4, 41, 7);
    assert(col_point(21) == crate::pairing_values::g1p(60, 41));
}

/// `90 H` by double-and-add: defined, and mapped by `i -> 10` to `22 P`.
#[verifier::spinoff_prover]
proof fn lemma_wide_90()
    ensures
        G2Point::sgenerator().mul_defined(90),
        G2Point::sgenerator().smul(90) == g2_pt(29, 87, 31, 61),
        sproject(g2_pt(29, 87, 31, 61)) == col_point(22),
{
    lemma_addition_5();
    lemma_wide_addition_9();
    lemma_wide_addition_67();
    lemma_double_0();
    lemma_double_1();
    lemma_double_2();
    lemma_double_3();
    lemma_double_4();
    lemma_double_5();
    lemma_double_6();
    lemma_cycle_steps(g2_pt(29, 87, 31, 61), g2_pt(31, 98, 39, 6), 57);
    G2Point::lemma_smul_steps_zero(g2_pt(29, 87, 31, 61), g2_pt(31, 98, 39, 6), 57);
    assert(G2Point::mul_steps_defined(g2_pt(31, 98, 39, 6), g2_pt(84, 54, 48, 91), 1, 58));
    assert(G2Point::mul_steps_defined(g2_pt(31, 98, 39, 6), g2_pt(18, 35, 17, 99), 2, 59));
    assert(G2Point::mul_steps_defined(g2_pt(65, 87, 47, 11), g2_pt(93, 48, 94, 99), 5, 60));
    assert(G2Point::mul_steps_defined(g2_pt(38, 33, 61, 75), g2_pt(18, 69, 94, 11), 11, 61));
    assert(G2Point::mul_steps_defined(g2_pt(38, 33, 61, 75), g2_pt(5, 72, 16, 44), 22, 62));
    assert(G2Point::mul_steps_defined(G2Point::Infinity, g2_pt(38, 33, 61, 75), 45, 63));
    assert(G2Point::mul_steps_defined(G2Point::Infinity, g2_pt(0, 3, 9, 49), 90, 64));
    assert(G2Point::smul_steps(G2Point::Infinity, g2_pt(0, 3, 9, 49), 90, 64) == G2Point::smul_steps(G2Point::Infinity, g2_pt(38, 33, 61, 75), 45, 63));
    assert(G2Point::smul_steps(G2Point::Infinity, g2_pt(38, 33, 61, 75), 45, 63) == G2Point::smul_steps(g2_pt(38, 33, 61, 75), g2_pt(5, 72, 16, 44), 22, 62));
    assert(G2Point::smul_steps(g2_pt(38, 33, 61, 75), g2_pt(5, 72, 16, 44), 22, 62) == G2Point::smul_steps(g2_pt(38, 33, 61, 75), g2_pt(18, 69, 94, 11), 11, 61));
    assert(G2Point::smul_steps(g2_pt(38, 33, 61, 75), g2_pt(18, 69, 94, 11), 11, 61) == G2Point::smul_steps(g2_pt(65, 87, 47, 11), g2_pt(93, 48, 94, 99), 5, 60));
    assert(G2Point::smul_steps(g2_pt(65, 87, 47, 11), g2_pt(93, 48, 94, 99), 5, 60) == G2Point::smul_steps(g2_pt(31, 98, 39, 6), g2_pt(18, 35, 17, 99), 2, 59));
    assert(G2Point::smul_steps(g2_pt(31, 98, 39, 6), g2_pt(18, 35, 17, 99), 2, 59) == G2Point::smul_steps(g2_pt(31, 98, 39, 6), g2_pt(84, 54, 48, 91), 1, 58));
    assert(G2Point::smul_steps(g2_pt(31, 98, 39, 6), g2_pt(84, 54, 48, 91), 1, 58) == G2Point::smul_steps(g2_pt(29, 87, 31, 61), g2_pt(31, 98, 39, 6), 0, 57));
    crate::pairing_values::lemma_distort_at(29, 87, 31, 61, 91, 8, 35, 6);
    assert(col_point(22) == crate::pairing_values::g1p(91, 35));
}

/// `91 H` by double-and-add: defined, and mapped by `i -> 10` to `23 P`.
#[verifier::spinoff_prover]
proof fn lemma_wide_91()
    ensures
        G2Point::sgenerator().mul_defined(91),
        G2Point::sgenerator().smul(91) == g2_pt(61, 30, 17, 25),
        sproject(g2_pt(61, 30, 17, 25)) == col_point(23),
{
    lemma_addition_0();
    lemma_addition_6();
    lemma_wide_addition_10();
    lemma_wide_addition_68();
    lemma_double_0();
    lemma_double_1();
    lemma_double_2();
    lemma_double_3();
    lemma_double_4();
    lemma_double_5();
    lemma_double_6();
    lemma_cycle_steps(g2_pt(61, 30, 17, 25), g2_pt(31, 98, 39, 6), 57);
    G2Point::lemma_smul_steps_zero(g2_pt(61, 30, 17, 25), g2_pt(31, 98, 39, 6), 57);
    assert(G2Point::mul_steps_defined(g2_pt(5, 95, 77, 68), g2_pt(84, 54, 48, 91), 1, 58));
    assert(G2Point::mul_steps_defined(g2_pt(5, 95, 77, 68), g2_pt(18, 35, 17, 99), 2, 59));
    assert(G2Point::mul_steps_defined(g2_pt(61, 30, 84, 76), g2_pt(93, 48, 94, 99), 5, 60));
    assert(G2Point::mul_steps_defined(g2_pt(19, 91, 88, 44), g2_pt(18, 69, 94, 11), 11, 61));
    assert(G2Point::mul_steps_defined(g2_pt(19, 91, 88, 44), g2_pt(5, 72, 16, 44), 22, 62));
    assert(G2Point::mul_steps_defined(g2_pt(0, 3, 9, 49), g2_pt(38, 33, 61, 75), 45, 63));
    assert(G2Point::mul_steps_defined(G2Point::Infinity, g2_pt(0, 3, 9, 49), 91, 64));
    assert(G2Point::smul_steps(G2Point::Infinity, g2_pt(0, 3, 9, 49), 91, 64) == G2Point::smul_steps(g2_pt(0, 3, 9, 49), g2_pt(38, 33, 61, 75), 45, 63));
    assert(G2Point::smul_steps(g2_pt(0, 3, 9, 49), g2_pt(38, 33, 61, 75), 45, 63) == G2Point::smul_steps(g2_pt(19, 91, 88, 44), g2_pt(5, 72, 16, 44), 22, 62));
    assert(G2Point::smul_steps(g2_pt(19, 91, 88, 44), g2_pt(5, 72, 16, 44), 22, 62) == G2Point::smul_steps(g2_pt(19, 91, 88, 44), g2_pt(18, 69, 94, 11), 11, 61));
    assert(G2Point::smul_steps(g2_pt(19, 91, 88, 44), g2_pt(18, 69, 94, 11), 11, 61) == G2Point::smul_steps(g2_pt(61, 30, 84, 76), g2_pt(93, 48, 94, 99), 5, 60));
    assert(G2Point::smul_steps(g2_pt(61, 30, 84, 76), g2_pt(93, 48, 94, 99), 5, 60) == G2Point::smul_steps(g2_pt(5, 95, 77, 68), g2_pt(18, 35, 17, 99), 2, 59));
    assert(G2Point::smul_steps(g2_pt(5, 95, 77, 68), g2_pt(18, 35, 17, 99), 2, 59) == G2Point::smul_steps(g2_pt(5, 95, 77, 68), g2_pt(84, 54, 48, 91), 1, 58));
    assert(G2Point::smul_steps(g2_pt(5, 95, 77, 68), g2_pt(84, 54, 48, 91), 1, 58) == G2Point::smul_steps(g2_pt(61, 30, 17, 25), g2_pt(31, 98, 39, 6), 0, 57));
    crate::pairing_values::lemma_distort_at(61, 30, 17, 25, 58, 3, 65, 2);
    assert(col_point(23) == crate::pairing_values::g1p(58, 65));
}

/// `92 H` by double-and-add: defined, and mapped by `i -> 10` to `24 P`.
#[verifier::spinoff_prover]
proof fn lemma_wide_92()
    ensures
        G2Point::sgenerator().mul_defined(92),
        G2Point::sgenerator().smul(92) == g2_pt(65, 87, 54, 90),
        sproject(g2_pt(65, 87, 54, 90)) == col_point(24),
{
    lemma_addition_7();
    lemma_wide_addition_11();
    lemma_wide_addition_69();
    lemma_double_0();
    lemma_double_1();
    lemma_double_2();
    lemma_double_3();
    lemma_double_4();
    lemma_double_5();
    lemma_double_6();
    lemma_cycle_steps(g2_pt(65, 87, 54, 90), g2_pt(31, 98, 39, 6), 57);
    G2Point::lemma_smul_steps_zero(g2_pt(65, 87, 54, 90), g2_pt(31, 98, 39, 6), 57);
    assert(G2Point::mul_steps_defined(g2_pt(83, 3, 54, 52), g2_pt(84, 54, 48, 91), 1, 58));
    assert(G2Point::mul_steps_defined(g2_pt(83, 3, 54, 52), g2_pt(18, 35, 17, 99), 2, 59));
    assert(G2Point::mul_steps_defined(g2_pt(29, 87, 70, 40), g2_pt(93, 48, 94, 99), 5, 60));
    assert(G2Point::mul_steps_defined(g2_pt(5, 72, 16, 44), g2_pt(18, 69, 94, 11), 11, 61));
    assert(G2Point::mul_steps_defined(G2Point::Infinity, g2_pt(5, 72, 16, 44), 23, 62));
    assert(G2Point::mul_steps_defined(G2Point::Infinity, g2_pt(38, 33, 61, 75), 46, 63));
    assert(G2Point::mul_steps_defined(G2Point::Infinity, g2_pt(0, 3, 9, 49), 92, 64));
    assert(G2Point::smul_steps(G2Point::Infinity, g2_pt(0, 3, 9, 49), 92, 64) == G2Point::smul_steps(G2Point::Infinity, g2_pt(38, 33, 61, 75), 46, 63));
    assert(G2Point::smul_steps(G2Point::Infinity, g2_pt(38, 33, 61, 75), 46, 63) == G2Point::smul_steps(G2Point::Infinity, g2_pt(5, 72, 16, 44), 23, 62));
    assert(G2Point::smul_steps(G2Point::Infinity, g2_pt(5, 72, 16, 44), 23, 62) == G2Point::smul_steps(g2_pt(5, 72, 16, 44), g2_pt(18, 69, 94, 11), 11, 61));
    assert(G2Point::smul_steps(g2_pt(5, 72, 16, 44), g2_pt(18, 69, 94, 11), 11, 61) == G2Point::smul_steps(g2_pt(29, 87, 70, 40), g2_pt(93, 48, 94, 99), 5, 60));
    assert(G2Point::smul_steps(g2_pt(29, 87, 70, 40), g2_pt(93, 48, 94, 99), 5, 60) == G2Point::smul_steps(g2_pt(83, 3, 54, 52), g2_pt(18, 35, 17, 99), 2, 59));
    assert(G2Point::smul_steps(g2_pt(83, 3, 54, 52), g2_pt(18, 35, 17, 99), 2, 59) == G2Point::smul_steps(g2_pt(83, 3, 54, 52), g2_pt(84, 54, 48, 91), 1, 58));
    assert(G2Point::smul_steps(g2_pt(83, 3, 54, 52), g2_pt(84, 54, 48, 91), 1, 58) == G2Point::smul_steps(g2_pt(65, 87, 54, 90), g2_pt(31, 98, 39, 6), 0, 57));
    crate::pairing_values::lemma_distort_at(65, 87, 54, 90, 26, 9, 45, 9);
    assert(col_point(24) == crate::pairing_values::g1p(26, 45));
}

/// `93 H` by double-and-add: defined, and mapped by `i -> 10` to `25 P`.
#[verifier::spinoff_prover]
proof fn lemma_wide_93()
    ensures
        G2Point::sgenerator().mul_defined(93),
        G2Point::sgenerator().smul(93) == g2_pt(83, 80, 17, 79),
        sproject(g2_pt(83, 80, 17, 79)) == col_point(25),
{
    lemma_addition_1();
    lemma_addition_8();
    lemma_wide_addition_12();
    lemma_wide_addition_70();
    lemma_double_0();
    lemma_double_1();
    lemma_double_2();
    lemma_double_3();
    lemma_double_4();
    lemma_double_5();
    lemma_double_6();
    lemma_cycle_steps(g2_pt(83, 80, 17, 79), g2_pt(31, 98, 39, 6), 57);
    G2Point::lemma_smul_steps_zero(g2_pt(83, 80, 17, 79), g2_pt(31, 98, 39, 6), 57);
    assert(G2Point::mul_steps_defined(g2_pt(13, 79, 95, 59), g2_pt(84, 54, 48, 91), 1, 58));
    assert(G2Point::mul_steps_defined(g2_pt(13, 79, 95, 59), g2_pt(18, 35, 17, 99), 2, 59));
    assert(G2Point::mul_steps_defined(g2_pt(4, 46, 3, 36), g2_pt(93, 48, 94, 99), 5, 60));
    assert(G2Point::mul_steps_defined(g2_pt(69, 33, 71, 86), g2_pt(18, 69, 94, 11), 11, 61));
    assert(G2Point::mul_steps_defined(g2_pt(0, 3, 9, 49), g2_pt(5, 72, 16, 44), 23, 62));
    assert(G2Point::mul_steps_defined(g2_pt(0, 3, 9, 49), g2_pt(38, 33, 61, 75), 46, 63));
    assert(G2Point::mul_steps_defined(G2Point::Infinity, g2_pt(0, 3, 9, 49), 93, 64));
    assert(G2Point::smul_steps(G2Point::Infinity, g2_pt(0, 3, 9, 49), 93, 64) == G2Point::smul_steps(g2_pt(0, 3, 9, 49), g2_pt(38, 33, 61, 75), 46, 63));
    assert(G2Point::smul_steps(g2_pt(0, 3, 9, 49), g2_pt(38, 33, 61, 75), 46, 63) == G2Point::smul_steps(g2_pt(0, 3, 9, 49), g2_pt(5, 72, 16, 44), 23, 62));
    assert(G2Point::smul_steps(g2_pt(0, 3, 9, 49), g2_pt(5, 72, 16, 44), 23, 62) == G2Point::smul_steps(g2_pt(69, 33, 71, 86), g2_pt(18, 69, 94, 11), 11, 61));
    assert(G2Point::smul_steps(g2_pt(69, 33, 71, 86), g2_pt(18, 69, 94, 11), 11, 61) == G2Point::smul_steps(g2_pt(4, 46, 3, 36), g2_pt(93, 48, 94, 99), 5, 60));
    assert(G2Point::smul_steps(g2_pt(4, 46, 3, 36), g2_pt(93, 48, 94, 99), 5, 60) == G2Point::smul_steps(g2_pt(13, 79, 95, 59), g2_pt(18, 35, 17, 99), 2, 59));
    assert(G2Point::smul_steps(g2_pt(13, 79, 95, 59), g2_pt(18, 35, 17, 99), 2, 59) == G2Point::smul_steps(g2_pt(13, 79, 95, 59), g2_pt(84, 54, 48, 91), 1, 58));
    assert(G2Point::smul_steps(g2_pt(13, 79, 95, 59), g2_pt(84, 54, 48, 91), 1, 58) == G2Point::smul_steps(g2_pt(83, 80, 17, 79), g2_pt(31, 98, 39, 6), 0, 57));
    crate::pairing_values::lemma_distort_at(83, 80, 17, 79, 75, 8, 100, 7);
    assert(col_point(25) == crate::pairing_values::g1p(75, 100));
}

/// `95 H` by double-and-add: defined, and mapped by `i -> 10` to `27 P`.
#[verifier::spinoff_prover]
proof fn lemma_wide_95()
    ensures
        G2Point::sgenerator().mul_defined(95),
        G2Point::sgenerator().smul(95) == g2_pt(81, 47, 8, 85),
        sproject(g2_pt(81, 47, 8, 85)) == col_point(27),
{
    lemma_addition_0();
    lemma_addition_3();
    lemma_addition_10();
    lemma_wide_addition_14();
    lemma_wide_addition_71();
    lemma_double_0();
    lemma_double_1();
    lemma_double_2();
    lemma_double_3();
    lemma_double_4();
    lemma_double_5();
    lemma_double_6();
    lemma_cycle_steps(g2_pt(81, 47, 8, 85), g2_pt(31, 98, 39, 6), 57);
    G2Point::lemma_smul_steps_zero(g2_pt(81, 47, 8, 85), g2_pt(31, 98, 39, 6), 57);
    assert(G2Point::mul_steps_defined(g2_pt(82, 14, 97, 89), g2_pt(84, 54, 48, 91), 1, 58));
    assert(G2Point::mul_steps_defined(g2_pt(82, 14, 97, 89), g2_pt(18, 35, 17, 99), 2, 59));
    assert(G2Point::mul_steps_defined(g2_pt(71, 14, 32, 68), g2_pt(93, 48, 94, 99), 5, 60));
    assert(G2Point::mul_steps_defined(g2_pt(81, 47, 93, 16), g2_pt(18, 69, 94, 11), 11, 61));
    assert(G2Point::mul_steps_defined(g2_pt(19, 91, 88, 44), g2_pt(5, 72, 16, 44), 23, 62));
    assert(G2Point::mul_steps_defined(g2_pt(0, 3, 9, 49), g2_pt(38, 33, 61, 75), 47, 63));
    assert(G2Point::mul_steps_defined(G2Point::Infinity, g2_pt(0, 3, 9, 49), 95, 64));
    assert(G2Point::smul_steps(G2Point::Infinity, g2_pt(0, 3, 9, 49), 95, 64) == G2Point::smul_steps(g2_pt(0, 3, 9, 49), g2_pt(38, 33, 61, 75), 47, 63));
    assert(G2Point::smul_steps(g2_pt(0, 3, 9, 49), g2_pt(38, 33, 61, 75), 47, 63) == G2Point::smul_steps(g2_pt(19, 91, 88, 44), g2_pt(5, 72, 16, 44), 23, 62));
    assert(G2Point::smul_steps(g2_pt(19, 91, 88, 44), g2_pt(5, 72, 16, 44), 23, 62) == G2Point::smul_steps(g2_pt(81, 47, 93, 16), g2_pt(18, 69, 94, 11), 11, 61));
    assert(G2Point::smul_steps(g2_pt(81, 47, 93, 16), g2_pt(18, 69, 94, 11), 11, 61) == G2Point::smul_steps(g2_pt(71, 14, 32, 68), g2_pt(93, 48, 94, 99), 5, 60));
    assert(G2Point::smul_steps(g2_pt(71, 14, 32, 68), g2_pt(93, 48, 94, 99), 5, 60) == G2Point::smul_steps(g2_pt(82, 14, 97, 89), g2_pt(18, 35, 17, 99), 2, 59));
    assert(G2Point::smul_steps(g2_pt(82, 14, 97, 89), g2_pt(18, 35, 17, 99), 2, 59) == G2Point::smul_steps(g2_pt(82, 14, 97, 89), g2_pt(84, 54, 48, 91), 1, 58));
    assert(G2Point::smul_steps(g2_pt(82, 14, 97, 89), g2_pt(84, 54, 48, 91), 1, 58) == G2Point::smul_steps(g2_pt(81, 47, 8, 85), g2_pt(31, 98, 39, 6), 0, 57));
    crate::pairing_values::lemma_distort_at(81, 47, 8, 85, 46, 5, 50, 8);
    assert(col_point(27) == crate::pairing_values::g1p(46, 50));
}

/// `96 H` by double-and-add: defined, and mapped by `i -> 10` to `28 P`.
#[verifier::spinoff_prover]
proof fn lemma_wide_96()
    ensures
        G2Point::sgenerator().mul_defined(96),
        G2Point::sgenerator().smul(96) == g2_pt(57, 46, 84, 49),
        sproject(g2_pt(57, 46, 84, 49)) == col_point(28),
{
    lemma_wide_addition_72();
    lemma_double_0();
    lemma_double_1();
    lemma_double_2();
    lemma_double_3();
    lemma_double_4();
    lemma_double_5();
    lemma_double_6();
    lemma_cycle_steps(g2_pt(57, 46, 84, 49), g2_pt(31, 98, 39, 6), 57);
    G2Point::lemma_smul_steps_zero(g2_pt(57, 46, 84, 49), g2_pt(31, 98, 39, 6), 57);
    assert(G2Point::mul_steps_defined(g2_pt(18, 35, 17, 99), g2_pt(84, 54, 48, 91), 1, 58));
    assert(G2Point::mul_steps_defined(G2Point::Infinity, g2_pt(18, 35, 17, 99), 3, 59));
    assert(G2Point::mul_steps_defined(G2Point::Infinity, g2_pt(93, 48, 94, 99), 6, 60));
    assert(G2Point::mul_steps_defined(G2Point::Infinity, g2_pt(18, 69, 94, 11), 12, 61));
    assert(G2Point::mul_steps_defined(G2Point::Infinity, g2_pt(5, 72, 16, 44), 24, 62));
    assert(G2Point::mul_steps_defined(G2Point::Infinity, g2_pt(38, 33, 61, 75), 48, 63));
    assert(G2Point::mul_steps_defined(G2Point::Infinity, g2_pt(0, 3, 9, 49), 96, 64));
    assert(G2Point::smul_steps(G2Point::Infinity, g2_pt(0, 3, 9, 49), 96, 64) == G2Point::smul_steps(G2Point::Infinity, g2_pt(38, 33, 61, 75), 48, 63));
    assert(G2Point::smul_steps(G2Point::Infinity, g2_pt(38, 33, 61, 75), 48, 63) == G2Point::smul_steps(G2Point::Infinity, g2_pt(5, 72, 16, 44), 24, 62));
    assert(G2Point::smul_steps(G2Point::Infinity, g2_pt(5, 72, 16, 44), 24, 62) == G2Point::smul_steps(G2Point::Infinity, g2_pt(18, 69, 94, 11), 12, 61));
    assert(G2Point::smul_steps(G2Point::Infinity, g2_pt(18, 69, 94, 11), 12, 61) == G2Point::smul_steps(G2Point::Infinity, g2_pt(93, 48, 94, 99), 6, 60));
    assert(G2Point::smul_steps(G2Point::Infinity, g2_pt(93, 48, 94, 99), 6, 60) == G2Point::smul_steps(G2Point::Infinity, g2_pt(18, 35, 17, 99), 3, 59));
    assert(G2Point::smul_steps(G2Point::Infinity, g2_pt(18, 35, 17, 99), 3, 59) == G2Point::smul_steps(g2_pt(18, 35, 17, 99), g2_pt(84, 54, 48, 91), 1, 58));
    assert(G2Point::smul_steps(g2_pt(18, 35, 17, 99), g2_pt(84, 54, 48, 91), 1, 58) == G2Point::smul_steps(g2_pt(57, 46, 84, 49), g2_pt(31, 98, 39, 6), 0, 57));
    crate::pairing_values::lemma_distort_at(57, 46, 84, 49, 12, 5, 69, 5);
    assert(col_point(28) == crate::pairing_values::g1p(12, 69));
}

/// `97 H` by double-and-add: defined, and mapped by `i -> 10` to `29 P`.
#[verifier::spinoff_prover]
proof fn lemma_wide_97()
    ensures
        G2Point::sgenerator().mul_defined(97),
        G2Point::sgenerator().smul(97) == g2_pt(69, 33, 30, 15),
        sproject(g2_pt(69, 33, 30, 15)) == col_point(29),
{
    lemma_wide_addition_15();
    lemma_wide_addition_73();
    lemma_double_0();
    lemma_double_1();
    lemma_double_2();
    lemma_double_3();
    lemma_double_4();
    lemma_double_5();
    lemma_double_6();
    lemma_cycle_steps(g2_pt(69, 33, 30, 15), g2_pt(31, 98, 39, 6), 57);
    G2Point::lemma_smul_steps_zero(g2_pt(69, 33, 30, 15), g2_pt(31, 98, 39, 6), 57);
    assert(G2Point::mul_steps_defined(g2_pt(28, 81, 31, 48), g2_pt(84, 54, 48, 91), 1, 58));
    assert(G2Point::mul_steps_defined(g2_pt(0, 3, 9, 49), g2_pt(18, 35, 17, 99), 3, 59));
    assert(G2Point::mul_steps_defined(g2_pt(0, 3, 9, 49), g2_pt(93, 48, 94, 99), 6, 60));
    assert(G2Point::mul_steps_defined(g2_pt(0, 3, 9, 49), g2_pt(18, 69, 94, 11), 12, 61));
    assert(G2Point::mul_steps_defined(g2_pt(0, 3, 9, 49), g2_pt(5, 72, 16, 44), 24, 62));
    assert(G2Point::mul_steps_defined(g2_pt(0, 3, 9, 49), g2_pt(38, 33, 61, 75), 48, 63));
    assert(G2Point::mul_steps_defined(G2Point::Infinity, g2_pt(0, 3, 9, 49), 97, 64));
    assert(G2Point::smul_steps(G2Point::Infinity, g2_pt(0, 3, 9, 49), 97, 64) == G2Point::smul_steps(g2_pt(0, 3, 9, 49), g2_pt(38, 33, 61, 75), 48, 63));
    assert(G2Point::smul_steps(g2_pt(0, 3, 9, 49), g2_pt(38, 33, 61, 75), 48, 63) == G2Point::smul_steps(g2_pt(0, 3, 9, 49), g2_pt(5, 72, 16, 44), 24, 62));
    assert(G2Point::smul_steps(g2_pt(0, 3, 9, 49), g2_pt(5, 72, 16, 44), 24, 62) == G2Point::smul_steps(g2_pt(0, 3, 9, 49), g2_pt(18, 69, 94, 11), 12, 61));
    assert(G2Point::smul_steps(g2_pt(0, 3, 9, 49), g2_pt(18, 69, 94, 11), 12, 61) == G2Point::smul_steps(g2_pt(0, 3, 9, 49), g2_pt(93, 48, 94, 99), 6, 60));
    assert(G2Point::smul_steps(g2_pt(0, 3, 9, 49), g2_pt(93, 48, 94, 99), 6, 60) == G2Point::smul_steps(g2_pt(0, 3, 9, 49), g2_pt(18, 35, 17, 99), 3, 59));
    assert(G2Point::smul_steps(g2_pt(0, 3, 9, 49), g2_pt(18, 35, 17, 99), 3, 59) == G2Point::smul_steps(g2_pt(28, 81, 31, 48), g2_pt(84, 54, 48, 91), 1, 58));
    assert(G2Point::smul_steps(g2_pt(28, 81, 31, 48), g2_pt(84, 54, 48, 91), 1, 58) == G2Point::smul_steps(g2_pt(69, 33, 30, 15), g2_pt(31, 98, 39, 6), 0, 57));
    crate::pairing_values::lemma_distort_at(69, 33, 30, 15, 96, 3, 79, 1);
    assert(col_point(29) == crate::pairing_values::g1p(96, 79));
}

/// `99 H` by double-and-add: defined, and mapped by `i -> 10` to `31 P`.
#[verifier::spinoff_prover]
proof fn lemma_wide_99()
    ensures
        G2Point::sgenerator().mul_defined(99),
        G2Point::sgenerator().smul(99) == g2_pt(19, 91, 13, 57),
        sproject(g2_pt(19, 91, 13, 57)) == col_point(31),
{
    lemma_addition_0();
    lemma_wide_addition_16();
    lemma_wide_addition_74();
    lemma_double_0();
    lemma_double_1();
    lemma_double_2();
    lemma_double_3();
    lemma_double_4();
    lemma_double_5();
    lemma_double_6();
    lemma_cycle_steps(g2_pt(19, 91, 13, 57), g2_pt(31, 98, 39, 6), 57);
    G2Point::lemma_smul_steps_zero(g2_pt(19, 91, 13, 57), g2_pt(31, 98, 39, 6), 57);
    assert(G2Point::mul_steps_defined(g2_pt(74, 36, 41, 66), g2_pt(84, 54, 48, 91), 1, 58));
    assert(G2Point::mul_steps_defined(g2_pt(19, 91, 88, 44), g2_pt(18, 35, 17, 99), 3, 59));
    assert(G2Point::mul_steps_defined(g2_pt(19, 91, 88, 44), g2_pt(93, 48, 94, 99), 6, 60));
    assert(G2Point::mul_steps_defined(g2_pt(19, 91, 88, 44), g2_pt(18, 69, 94, 11), 12, 61));
    assert(G2Point::mul_steps_defined(g2_pt(19, 91, 88, 44), g2_pt(5, 72, 16, 44), 24, 62));
    assert(G2Point::mul_steps_defined(g2_pt(0, 3, 9, 49), g2_pt(38, 33, 61, 75), 49, 63));
    assert(G2Point::mul_steps_defined(G2Point::Infinity, g2_pt(0, 3, 9, 49), 99, 64));
    assert(G2Point::smul_steps(G2Point::Infinity, g2_pt(0, 3, 9, 49), 99, 64) == G2Point::smul_steps(g2_pt(0, 3, 9, 49), g2_pt(38, 33, 61, 75), 49, 63));
    assert(G2Point::smul_steps(g2_pt(0, 3, 9, 49), g2_pt(38, 33, 61, 75), 49, 63) == G2Point::smul_steps(g2_pt(19, 91, 88, 44), g2_pt(5, 72, 16, 44), 24, 62));
    assert(G2Point::smul_steps(g2_pt(19, 91, 88, 44), g2_pt(5, 72, 16, 44), 24, 62) == G2Point::smul_steps(g2_pt(19, 91, 88, 44), g2_pt(18, 69, 94, 11), 12, 61));
    assert(G2Point::smul_steps(g2_pt(19, 91, 88, 44), g2_pt(18, 69, 94, 11), 12, 61) == G2Point::smul_steps(g2_pt(19, 91, 88, 44), g2_pt(93, 48, 94, 99), 6, 60));
    assert(G2Point::smul_steps(g2_pt(19, 91, 88, 44), g2_pt(93, 48, 94, 99), 6, 60) == G2Point::smul_steps(g2_pt(19, 91, 88, 44), g2_pt(18, 35, 17, 99), 3, 59));
    assert(G2Point::smul_steps(g2_pt(19, 91, 88, 44), g2_pt(18, 35, 17, 99), 3, 59) == G2Point::smul_steps(g2_pt(74, 36, 41, 66), g2_pt(84, 54, 48, 91), 1, 58));
    assert(G2Point::smul_steps(g2_pt(74, 36, 41, 66), g2_pt(84, 54, 48, 91), 1, 58) == G2Point::smul_steps(g2_pt(19, 91, 13, 57), g2_pt(31, 98, 39, 6), 0, 57));
    crate::pairing_values::lemma_distort_at(19, 91, 13, 57, 20, 9, 78, 5);
    assert(col_point(31) == crate::pairing_values::g1p(20, 78));
}

/// `100 H` by double-and-add: defined, and mapped by `i -> 10` to `32 P`.
#[verifier::spinoff_prover]
proof fn lemma_wide_100()
    ensures
        G2Point::sgenerator().mul_defined(100),
        G2Point::sgenerator().smul(100) == g2_pt(38, 33, 40, 26),
        sproject(g2_pt(38, 33, 40, 26)) == col_point(32),
{
    lemma_wide_addition_17();
    lemma_wide_addition_75();
    lemma_double_0();
    lemma_double_1();
    lemma_double_2();
    lemma_double_3();
    lemma_double_4();
    lemma_double_5();
    lemma_double_6();
    lemma_cycle_steps(g2_pt(38, 33, 40, 26), g2_pt(31, 98, 39, 6), 57);
    G2Point::lemma_smul_steps_zero(g2_pt(38, 33, 40, 26), g2_pt(31, 98, 39, 6), 57);
    assert(G2Point::mul_steps_defined(g2_pt(99, 37, 73, 94), g2_pt(84, 54, 48, 91), 1, 58));
    assert(G2Point::mul_steps_defined(g2_pt(5, 72, 16, 44), g2_pt(18, 35, 17, 99), 3, 59));
    assert(G2Point::mul_steps_defined(g2_pt(5, 72, 16, 44), g2_pt(93, 48, 94, 99), 6, 60));
    assert(G2Point::mul_steps_defined(g2_pt(5, 72, 16, 44), g2_pt(18, 69, 94, 11), 12, 61));
    assert(G2Point::mul_steps_defined(G2Point::Infinity, g2_pt(5, 72, 16, 44), 25, 62));
    assert(G2Point::mul_steps_defined(G2Point::Infinity, g2_pt(38, 33, 61, 75), 50, 63));
    assert(G2Point::mul_steps_defined(G2Point::Infinity, g2_pt(0, 3, 9, 49), 100, 64));
    assert(G2Point::smul_steps(G2Point::Infinity, g2_pt(0, 3, 9, 49), 100, 64) == G2Point::smul_steps(G2Point::Infinity, g2_pt(38, 33, 61, 75), 50, 63));
    assert(G2Point::smul_steps(G2Point::Infinity, g2_pt(38, 33, 61, 75), 50, 63) == G2Point::smul_steps(G2Point::Infinity, g2_pt(5, 72, 16, 44), 25, 62));
    assert(G2Point::smul_steps(G2Point::Infinity, g2_pt(5, 72, 16, 44), 25, 62) == G2Point::smul_steps(g2_pt(5, 72, 16, 44), g2_pt(18, 69, 94, 11), 12, 61));
    assert(G2Point::smul_steps(g2_pt(5, 72, 16, 44), g2_pt(18, 69, 94, 11), 12, 61) == G2Point::smul_steps(g2_pt(5, 72, 16, 44), g2_pt(93, 48, 94, 99), 6, 60));
    assert(G2Point::smul_steps(g2_pt(5, 72, 16, 44), g2_pt(93, 48, 94, 99), 6, 60) == G2Point::smul_steps(g2_pt(5, 72, 16, 44), g2_pt(18, 35, 17, 99), 3, 59));
    assert(G2Point::smul_steps(g2_pt(5, 72, 16, 44), g2_pt(18, 35, 17, 99), 3, 59) == G2Point::smul_steps(g2_pt(99, 37, 73, 94), g2_pt(84, 54, 48, 91), 1, 58));
    assert(G2Point::smul_steps(g2_pt(99, 37, 73, 94), g2_pt(84, 54, 48, 91), 1, 58) == G2Point::smul_steps(g2_pt(38, 33, 40, 26), g2_pt(31, 98, 39, 6), 0, 57));
    crate::pairing_values::lemma_distort_at(38, 33, 40, 26, 65, 3, 98, 2);
    assert(col_point(32) == crate::pairing_values::g1p(65, 98));
}

/// The multiples `b H` for `17 <= b < 101` whose double-and-add meets no non-invertible
/// denominator (all but 34, 51, 68, 77, 94 and 98): defined, and mapped by `i -> 10` to
/// `(b mod 34) P`.
#[verifier::rlimit(40)]
pub(crate) proof fn lemma_h_wide(b: nat)
    requires
        17 <= b < 101,
        b != 34,
        b != 51,
        b != 68,
        b != 77,
        b != 94,
        b != 98,
    ensures
        G2Point::sgenerator().mul_defined(b),
        G2Point::sgenerator().smul(b) != G2Point::Infinity,
        sproject(G2Point::sgenerator().smul(b)) == col_point(b % 34),
{
    if b == 17 {
        lemma_wide_17();
        assert(b % 34 == 17);
    } else if b == 18 {
        lemma_wide_18();
        assert(b % 34 == 18);
    } else if b == 19 {
        lemma_wide_19();
        assert(b % 34 == 19);
    } else if b == 20 {
        lemma_wide_20();
        assert(b % 34 == 20);
    } else if b == 21 {
        lemma_wide_21();
        assert(b % 34 == 21);
    } else if b == 22 {
        lemma_wide_22();
        assert(b % 34 == 22);
    } else if b == 23 {
        lemma_wide_23();
        assert(b % 34 == 23);
    } else if b == 24 {
        lemma_wide_24();
        assert(b % 34 == 24);
    } else if b == 25 {
        lemma_wide_25();
        assert(b % 34 == 25);
    } else if b == 26 {
        lemma_wide_26();
        assert(b % 34 == 26);
    } else if b == 27 {
        lemma_wide_27();
        assert(b % 34 == 27);
    } else if b == 28 {
        lemma_wide_28();
        assert(b % 34 == 28);
    } else if b == 29 {
        lemma_wide_29();
        assert(b % 34 == 29);
    } else if b == 30 {
        lemma_wide_30();
        assert(b % 34 == 30);
    } else if b == 31 {
        lemma_wide_31();
        assert(b % 34 == 31);
    } else if b == 32 {
        lemma_wide_32();
        assert(b % 34 == 32);
    } else if b == 33 {
        lemma_wide_33();
        assert(b % 34 == 33);
    } else if b == 35 {
        lemma_wide_35();
        assert(b % 34 == 1);
    } else if b == 36 {
        lemma_wide_36();
        assert(b % 34 == 2);
    } else if b == 37 {
        lemma_wide_37();
        assert(b % 34 == 3);
    } else if b == 38 {
        lemma_wide_38();
        assert(b % 34 == 4);
    } else if b == 39 {
        lemma_wide_39();
        assert(b % 34 == 5);
    } else if b == 40 {
        lemma_wide_40();
        assert(b % 34 == 6);
    } else if b == 41 {
        lemma_wide_41();
        assert(b % 34 == 7);
    } else if b == 42 {
        lemma_wide_42();
        assert(b % 34 == 8);
    } else if b == 43 {
        lemma_wide_43();
        assert(b % 34 == 9);
    } else if b == 44 {
        lemma_wide_44();
        assert(b % 34 == 10);
    } else if b == 45 {
        lemma_wide_45();
        assert(b % 34 == 11);
    } else if b == 46 {
        lemma_wide_46();
        assert(b % 34 == 12);
    } else if b == 47 {
        lemma_wide_47();
        assert(b % 34 == 13);
    } else if b == 48 {
        lemma_wide_48();
        assert(b % 34 == 14);
    } else if b == 49 {
        lemma_wide_49();
        assert(b % 34 == 15);
    } else if b == 50 {
        lemma_wide_50();
        assert(b % 34 == 16);
    } else if b == 52 {
        lemma_wide_52();
        assert(b % 34 == 18);
    } else if b == 53 {
        lemma_wide_53();
        assert(b % 34 == 19);
    } else if b == 54 {
        lemma_wide_54();
        assert(b % 34 == 20);
    } else if b == 55 {
        lemma_wide_55();
        assert(b % 34 == 21);
    } else if b == 56 {
        lemma_wide_56();
        assert(b % 34 == 22);
    } else if b == 57 {
        lemma_wide_57();
        assert(b % 34 == 23);
    } else if b == 58 {
        lemma_wide_58();
        assert(b % 34 == 24);
    } else if b == 59 {
        lemma_wide_59();
        assert(b % 34 == 25);
    } else if b == 60 {
        lemma_wide_60();
        assert(b % 34 == 26);
    } else if b == 61 {
        lemma_wide_61();
        assert(b % 34 == 27);
    } else if b == 62 {
        lemma_wide_62();
        assert(b % 34 == 28);
    } else if b == 63 {
        lemma_wide_63();
        assert(b % 34 == 29);
    } else if b == 64 {
        lemma_wide_64();
        assert(b % 34 == 30);
    } else if b == 65 {
        lemma_wide_65();
        assert(b % 34 == 31);
    } else if b == 66 {
        lemma_wide_66();
        assert(b % 34 == 32);
    } else if b == 67 {
        lemma_wide_67();
        assert(b % 34 == 33);
    } else if b == 69 {
        lemma_wide_69();
        assert(b % 34 == 1);
    } else if b == 70 {
        lemma_wide_70();
        assert(b % 34 == 2);
    } else if b == 71 {
        lemma_wide_71();
        assert(b % 34 == 3);
    } else if b == 72 {
        lemma_wide_72();
        assert(b % 34 == 4);
    } else if b == 73 {
        lemma_wide_73();
        assert(b % 34 == 5);
    } else if b == 74 {
        lemma_wide_74();
        assert(b % 34 == 6);
    } else if b == 75 {
        lemma_wide_75();
        assert(b % 34 == 7);
    } else if b == 76 {
        lemma_wide_76();
        assert(b % 34 == 8);
    } else if b == 78 {
        lemma_wide_78();
        assert(b % 34 == 10);
    } else if b == 79 {
        lemma_wide_79();
        assert(b % 34 == 11);
    } else if b == 80 {
        lemma_wide_80();
        assert(b % 34 == 12);
    } else if b == 81 {
        lemma_wide_81();
        assert(b % 34 == 13);
    } else if b == 82 {
        lemma_wide_82();
        assert(b % 34 == 14);
    } else if b == 83 {
        lemma_wide_83();
        assert(b % 34 == 15);
    } else if b == 84 {
        lemma_wide_84();
        assert(b % 34 == 16);
    } else if b == 85 {
        lemma_wide_85();
        assert(b % 34 == 17);
    } else if b == 86 {
        lemma_wide_86();
        assert(b % 34 == 18);
    } else if b == 87 {
        lemma_wide_87();
        assert(b % 34 == 19);
    } else if b == 88 {
        lemma_wide_88();
        assert(b % 34 == 20);
    } else if b == 89 {
        lemma_wide_89();
        assert(b % 34 == 21);
    } else if b == 90 {
        lemma_wide_90();
        assert(b % 34 == 22);
    } else if b == 91 {
        lemma_wide_91();
        assert(b % 34 == 23);
    } else if b == 92 {
        lemma_wide_92();
        assert(b % 34 == 24);
    } else if b == 93 {
        lemma_wide_93();
        assert(b % 34 == 25);
    } else if b == 95 {
        lemma_wide_95();
        assert(b % 34 == 27);
    } else if b == 96 {
        lemma_wide_96();
        assert(b % 34 == 28);
    } else if b == 97 {
        lemma_wide_97();
        assert(b % 34 == 29);
    } else if b == 99 {
        lemma_wide_99();
        assert(b % 34 == 31);
    } else if b == 100 {
        lemma_wide_100();
        assert(b % 34 == 32);
    }
}

} // verus!
