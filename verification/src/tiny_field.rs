//! The tiny field `TinyFp` (p = 101), its quadratic extension `Fp2 = Fp[i] / (i^2 + 1)`,
//! and the curve `E: y^2 = x^3 + 3` over both: `G1Point` over `TinyFp`, `G2Point` over `Fp2`.
use crate::arith::{inv_mod, lemma_inverse_exists, lemma_no_zero_divisors, lemma_prime_101};
use crate::field::{ScalarField, TinyFp, PRIME};
use vstd::arithmetic::div_mod::*;
use vstd::prelude::*;

verus! {

broadcast use TinyFp::group_tiny_field;

/// The parameters of `TinyFp`: its modulus, a multiplicative generator and the
/// two-adic root of unity recorded with them.
pub struct FpConfig;

impl FpConfig {
    pub fn modulus() -> (r: u64)
        ensures
            r == PRIME,
    {
        PRIME
    }

    pub fn generator() -> (r: TinyFp)
        ensures
            r.val() == 2,
    {
        TinyFp::from_u64(2)
    }

    pub fn two_adic_root_of_unity() -> (r: TinyFp)
        ensures
            r.val() == 1,
    {
        TinyFp::from_u64(1)
    }
}

// ==============================================
// Extension ring Fp2 = Fp[i] / (i^2 + 1)
// ==============================================
/// `c0 + c1 * i` with `i^2 = -1`.
#[derive(Clone, Copy, Debug, PartialEq, Eq, Structural)]
pub struct Fp2 {
    pub c0: TinyFp,
    pub c1: TinyFp,
}

/// `(a + b) * (c + d) - a * c - b * d == a * d + b * c` in `TinyFp`.
proof fn lemma_karatsuba(a: TinyFp, b: TinyFp, c: TinyFp, d: TinyFp)
    ensures
        a.sadd(b).smul(c.sadd(d)).ssub(a.smul(c)).ssub(b.smul(d)) == a.smul(d).sadd(b.smul(c)),
{
    let p = PRIME as int;
    let (ai, bi, ci, di) = (a.val() as int, b.val() as int, c.val() as int, d.val() as int);
    let s = (ai + bi) * (ci + di);
    lemma_mul_mod_noop(ai + bi, ci + di, p);
    let x1 = a.sadd(b).smul(c.sadd(d));
    assert(x1.val() == s % p);
    let x2 = x1.ssub(a.smul(c));
    lemma_sub_mod_noop(s, ai * ci, p);
    assert(x2.val() == (s - ai * ci) % p);
    let x3 = x2.ssub(b.smul(d));
    lemma_sub_mod_noop(s - ai * ci, bi * di, p);
    assert(x3.val() == (s - ai * ci - bi * di) % p);
    assert(s - ai * ci - bi * di == ai * di + bi * ci) by (nonlinear_arith)
        requires
            s == (ai + bi) * (ci + di),
    ;
    let y = a.smul(d).sadd(b.smul(c));
    lemma_add_mod_noop(ai * di, bi * ci, p);
    assert(y.val() == (ai * di + bi * ci) % p);
    TinyFp::lemma_val_eq(x3, y);
}

/// The only canonical residue equal to its own negation is zero (the modulus is odd).
proof fn lemma_neg_fixed(y: TinyFp)
    requires
        y.canon(),
        y.sneg() == y,
    ensures
        y.val() == 0,
{
    let v = y.val() as int;
    let m = PRIME as int;
    assert(y.sneg().val() == (-v) % m);
    if v > 0 {
        lemma_mod_add_multiples_vanish(-v, m);
        lemma_small_mod((m - v) as nat, m as nat);
        assert((-v) % m == m - v);
    }
}

impl Fp2 {
    pub open spec fn szero() -> Fp2 {
        Fp2 { c0: TinyFp::szero(), c1: TinyFp::szero() }
    }

    pub open spec fn sone() -> Fp2 {
        Fp2 { c0: TinyFp::sone(), c1: TinyFp::szero() }
    }

    /// The embedding of the base field.
    pub open spec fn sfrom(x: TinyFp) -> Fp2 {
        Fp2 { c0: x, c1: TinyFp::szero() }
    }

    pub open spec fn sadd(self, o: Fp2) -> Fp2 {
        Fp2 { c0: self.c0.sadd(o.c0), c1: self.c1.sadd(o.c1) }
    }

    pub open spec fn ssub(self, o: Fp2) -> Fp2 {
        Fp2 { c0: self.c0.ssub(o.c0), c1: self.c1.ssub(o.c1) }
    }

    /// `(a + bi)(c + di) = (ac - bd) + (ad + bc)i`.
    pub open spec fn smul(self, o: Fp2) -> Fp2 {
        Fp2 {
            c0: self.c0.smul(o.c0).ssub(self.c1.smul(o.c1)),
            c1: self.c0.smul(o.c1).sadd(self.c1.smul(o.c0)),
        }
    }

    pub open spec fn sscale(self, s: TinyFp) -> Fp2 {
        Fp2 { c0: self.c0.smul(s), c1: self.c1.smul(s) }
    }

    pub open spec fn sconj(self) -> Fp2 {
        Fp2 { c0: self.c0, c1: self.c1.sneg() }
    }

    pub open spec fn sneg(self) -> Fp2 {
        Fp2 { c0: self.c0.sneg(), c1: self.c1.sneg() }
    }

    /// `a^2 + b^2`, the norm of `a + bi`.
    pub open spec fn snorm(self) -> TinyFp {
        self.c0.smul(self.c0).sadd(self.c1.smul(self.c1))
    }

    /// `(a + bi)^-1 = (a - bi) / (a^2 + b^2)`; `None` when the norm is zero.
    pub open spec fn sinverse(self) -> Option<Fp2> {
        if self.snorm().val() == 0 {
            None
        } else {
            Some(self.sconj().sscale(self.snorm().sinv()))
        }
    }

    /// An invertible element times its inverse is one.
    pub proof fn lemma_inverse(a: Fp2)
        requires
            a.c0.canon(),
            a.c1.canon(),
            a.sinverse() is Some,
        ensures
            a.smul(a.sinverse().unwrap()) == Fp2::sone(),
    {
        let (x, y) = (a.c0.val() as int, a.c1.val() as int);
        let nn = a.snorm();
        let n = nn.sinv();
        let k = n.val() as int;
        TinyFp::lemma_from_val(a.c0);
        TinyFp::lemma_from_val(a.c1);
        TinyFp::lemma_from_val(n);
        assert(nn == TinyFp::from_int(x * x + y * y)) by {
            TinyFp::lemma_from_int_ops(x, x);
            TinyFp::lemma_from_int_ops(y, y);
            TinyFp::lemma_from_int_ops(x * x, y * y);
        }
        assert(TinyFp::from_int((x * x + y * y) * k) == TinyFp::sone()) by {
            lemma_small_mod(nn.val(), PRIME as nat);
            TinyFp::lemma_inv_cancel(nn);
            TinyFp::lemma_from_int_ops(x * x + y * y, k);
        }
        let inv = a.sinverse().unwrap();
        assert(inv.c0 == TinyFp::from_int(x * k) && inv.c1 == TinyFp::from_int(-y * k)) by {
            TinyFp::lemma_from_int_ops(x, k);
            TinyFp::lemma_from_int_ops(y, 0);
            TinyFp::lemma_from_int_ops(-y, k);
        }
        let prod = a.smul(inv);
        assert(prod.c0 == TinyFp::sone()) by {
            TinyFp::lemma_from_int_ops(x, x * k);
            TinyFp::lemma_from_int_ops(y, -y * k);
            TinyFp::lemma_from_int_ops(x * (x * k), y * (-y * k));
            assert(x * (x * k) - y * (-y * k) == (x * x + y * y) * k) by (nonlinear_arith);
        }
        assert(prod.c1 == TinyFp::szero()) by {
            TinyFp::lemma_from_int_ops(x, -y * k);
            TinyFp::lemma_from_int_ops(y, x * k);
            TinyFp::lemma_from_int_ops(x * (-y * k), y * (x * k));
            assert(x * (-y * k) + y * (x * k) == 0) by (nonlinear_arith);
        }
    }

    pub fn new(c0: TinyFp, c1: TinyFp) -> (r: Fp2)
        ensures
            r == (Fp2 { c0, c1 }),
    {
        Fp2 { c0, c1 }
    }

    pub fn zero() -> (r: Fp2)
        ensures
            r == Fp2::szero(),
    {
        Fp2::new(TinyFp::zero(), TinyFp::zero())
    }

    /// The multiplicative identity `1 + 0i`.
    pub fn one() -> (r: Fp2)
        ensures
            r == Fp2::sone(),
    {
        Fp2::new(TinyFp::one(), TinyFp::zero())
    }

    pub fn from_base(x: TinyFp) -> (r: Fp2)
        ensures
            r == Fp2::sfrom(x),
    {
        Fp2::new(x, TinyFp::zero())
    }

    pub fn add(&self, other: &Fp2) -> (r: Fp2)
        ensures
            r == self.sadd(*other),
    {
        Fp2::new(self.c0.add(&other.c0), self.c1.add(&other.c1))
    }

    pub fn sub(&self, other: &Fp2) -> (r: Fp2)
        ensures
            r == self.ssub(*other),
    {
        Fp2::new(self.c0.sub(&other.c0), self.c1.sub(&other.c1))
    }

    /// Karatsuba product: three base-field multiplications.
    pub fn mul(&self, other: &Fp2) -> (r: Fp2)
        ensures
            r == self.smul(*other),
    {
        let ac = self.c0.mul(&other.c0);
        let bd = self.c1.mul(&other.c1);
        let ad_plus_bc = self.c0.add(&self.c1).mul(&other.c0.add(&other.c1)).sub(&ac).sub(&bd);
        proof {
            lemma_karatsuba(self.c0, self.c1, other.c0, other.c1);
        }
        Fp2::new(ac.sub(&bd), ad_plus_bc)
    }

    pub fn scala_mul(&self, scala: TinyFp) -> (r: Fp2)
        ensures
            r == self.sscale(scala),
    {
        Fp2::new(self.c0.mul(&scala), self.c1.mul(&scala))
    }

    pub fn square(&self) -> (r: Fp2)
        ensures
            r == self.smul(*self),
    {
        self.mul(self)
    }

    pub fn conjugate(&self) -> (r: Fp2)
        ensures
            r == self.sconj(),
    {
        Fp2::new(self.c0, self.c1.neg())
    }

    pub fn inverse(&self) -> (r: Option<Fp2>)
        ensures
            r == self.sinverse(),
    {
        let norm = self.c0.mul(&self.c0).add(&self.c1.mul(&self.c1));
        if norm.is_zero() {
            return None;
        }
        let norm_inv = norm.inverse().unwrap();
        Some(self.conjugate().scala_mul(norm_inv))
    }

    pub fn neg(&self) -> (r: Fp2)
        ensures
            r == self.sneg(),
    {
        Fp2::new(self.c0.neg(), self.c1.neg())
    }
}

/// The element of `Fp2` with components the images of the integers `a` and `b`.
pub open spec fn fp2_of(a: int, b: int) -> Fp2 {
    Fp2 { c0: TinyFp::from_int(a), c1: TinyFp::from_int(b) }
}

/// The ring operations of `Fp2` on images of integer pairs.
pub(crate) proof fn lemma_fp2_ops(a: int, b: int, c: int, d: int)
    ensures
        fp2_of(a, b).sadd(fp2_of(c, d)) == fp2_of(a + c, b + d),
        fp2_of(a, b).ssub(fp2_of(c, d)) == fp2_of(a - c, b - d),
        fp2_of(a, b).smul(fp2_of(c, d)) == fp2_of(a * c - b * d, a * d + b * c),
        fp2_of(a, b).sneg() == fp2_of(-a, -b),
{
    TinyFp::lemma_from_int_ops(a, c);
    TinyFp::lemma_from_int_ops(b, d);
    TinyFp::lemma_from_int_ops(a, d);
    TinyFp::lemma_from_int_ops(b, c);
    TinyFp::lemma_from_int_ops(a * c, b * d);
    TinyFp::lemma_from_int_ops(a * d, b * c);
}

/// Congruent integer pairs give the same element; a canonical element is the image of its
/// residues.
pub(crate) proof fn lemma_fp2_congruent(a: int, b: int, c: int, d: int)
    requires
        (a - c) % (PRIME as int) == 0,
        (b - d) % (PRIME as int) == 0,
    ensures
        fp2_of(a, b) == fp2_of(c, d),
{
    TinyFp::lemma_from_int_congruent(a, c);
    TinyFp::lemma_from_int_congruent(b, d);
}

pub(crate) proof fn lemma_fp2_of_canon(x: Fp2)
    requires
        x.c0.canon(),
        x.c1.canon(),
    ensures
        x == fp2_of(x.c0.val() as int, x.c1.val() as int),
{
    TinyFp::lemma_from_val(x.c0);
    TinyFp::lemma_from_val(x.c1);
}

/// The inverse of the image of `(a, b)`: `(a k, -b k)` with `k` the inverse of the norm.
pub(crate) proof fn lemma_fp2_inverse(a: int, b: int)
    ensures
        fp2_of(a, b).sinverse() is Some <==> (a * a + b * b) % (PRIME as int) != 0,
        fp2_of(a, b).sinverse() is Some ==> fp2_of(a, b).sinverse().unwrap() == fp2_of(
            a * (fp2_of(a, b).snorm().sinv().val() as int),
            -b * (fp2_of(a, b).snorm().sinv().val() as int),
        ),
        fp2_of(a, b).snorm() == TinyFp::from_int(a * a + b * b),
{
    TinyFp::lemma_from_int_ops(a, a);
    TinyFp::lemma_from_int_ops(b, b);
    TinyFp::lemma_from_int_ops(a * a, b * b);
    let k = fp2_of(a, b).snorm().sinv();
    TinyFp::lemma_from_val(k);
    TinyFp::lemma_from_int_ops(a, k.val() as int);
    TinyFp::lemma_from_int_ops(b, 0);
    TinyFp::lemma_from_int_ops(-b, k.val() as int);
}

/// The chord slope times the run is the rise, scaled by `k * |d|^2`: with
/// `l = (e0 + e1 i) * (d0 k - d1 k i)`, `l * (d0 + d1 i) = (e0 + e1 i) * (d0^2 + d1^2) k`.
proof fn lemma_chord_identity(e0: int, e1: int, d0: int, d1: int, k: int)
    ensures
        (e0 * (d0 * k) - e1 * (-d1 * k)) * d0 - (e0 * (-d1 * k) + e1 * (d0 * k)) * d1 == e0 * ((d0
            * d0 + d1 * d1) * k),
        (e0 * (d0 * k) - e1 * (-d1 * k)) * d1 + (e0 * (-d1 * k) + e1 * (d0 * k)) * d0 == e1 * ((d0
            * d0 + d1 * d1) * k),
{
    let l0 = e0 * (d0 * k) - e1 * (-d1 * k);
    let l1 = e0 * (-d1 * k) + e1 * (d0 * k);
    let a = e0 * d0 + e1 * d1;
    let b = e1 * d0 - e0 * d1;
    let n = d0 * d0 + d1 * d1;
    assert(l0 == k * a) by (nonlinear_arith)
        requires
            l0 == e0 * (d0 * k) - e1 * (-d1 * k),
            a == e0 * d0 + e1 * d1,
    ;
    assert(l1 == k * b) by (nonlinear_arith)
        requires
            l1 == e0 * (-d1 * k) + e1 * (d0 * k),
            b == e1 * d0 - e0 * d1,
    ;
    assert(a * d0 - b * d1 == e0 * n) by (nonlinear_arith)
        requires
            a == e0 * d0 + e1 * d1,
            b == e1 * d0 - e0 * d1,
            n == d0 * d0 + d1 * d1,
    ;
    assert(a * d1 + b * d0 == e1 * n) by (nonlinear_arith)
        requires
            a == e0 * d0 + e1 * d1,
            b == e1 * d0 - e0 * d1,
            n == d0 * d0 + d1 * d1,
    ;
    assert((k * a) * d0 - (k * b) * d1 == k * (a * d0 - b * d1)) by (nonlinear_arith);
    assert((k * a) * d1 + (k * b) * d0 == k * (a * d1 + b * d0)) by (nonlinear_arith);
    assert(k * (e0 * n) == e0 * (n * k)) by (nonlinear_arith);
    assert(k * (e1 * n) == e1 * (n * k)) by (nonlinear_arith);
}

/// The chord slope does not depend on the order of the two points, and times the run it is
/// the rise.
proof fn lemma_g2_slope(x1: Fp2, y1: Fp2, x2: Fp2, y2: Fp2)
    requires
        x1.c0.canon() && x1.c1.canon() && x2.c0.canon() && x2.c1.canon(),
        y1.c0.canon() && y1.c1.canon() && y2.c0.canon() && y2.c1.canon(),
        x2.ssub(x1).sinverse() is Some,
    ensures
        x1.ssub(x2).sinverse() is Some,
        y2.ssub(y1).smul(x2.ssub(x1).sinverse().unwrap()) == y1.ssub(y2).smul(
            x1.ssub(x2).sinverse().unwrap(),
        ),
        y2.ssub(y1).smul(x2.ssub(x1).sinverse().unwrap()).smul(x2.ssub(x1)) == y2.ssub(y1),
{
    let (x10, x11, x20, x21) = (x1.c0.val() as int, x1.c1.val() as int, x2.c0.val() as int, x2.c1.val() as int);
    let (y10, y11, y20, y21) = (y1.c0.val() as int, y1.c1.val() as int, y2.c0.val() as int, y2.c1.val() as int);
    lemma_fp2_of_canon(x1);
    lemma_fp2_of_canon(x2);
    lemma_fp2_of_canon(y1);
    lemma_fp2_of_canon(y2);
    let (d0, d1, e0, e1) = (x20 - x10, x21 - x11, y20 - y10, y21 - y11);
    lemma_fp2_ops(x20, x21, x10, x11);
    lemma_fp2_ops(x10, x11, x20, x21);
    lemma_fp2_ops(y20, y21, y10, y11);
    lemma_fp2_ops(y10, y11, y20, y21);
    assert(x10 - x20 == -d0 && x11 - x21 == -d1 && y10 - y20 == -e0 && y11 - y21 == -e1);
    lemma_fp2_inverse(d0, d1);
    lemma_fp2_inverse(-d0, -d1);
    let n = d0 * d0 + d1 * d1;
    assert((-d0) * (-d0) + (-d1) * (-d1) == n) by (nonlinear_arith)
        requires
            n == d0 * d0 + d1 * d1,
    ;
    let k = fp2_of(d0, d1).snorm().sinv().val() as int;
    lemma_fp2_ops(e0, e1, d0 * k, -d1 * k);
    lemma_fp2_ops(-e0, -e1, -d0 * k, -(-d1) * k);
    let l0 = e0 * (d0 * k) - e1 * (-d1 * k);
    let l1 = e0 * (-d1 * k) + e1 * (d0 * k);
    assert((-e0) * (-d0 * k) - (-e1) * (-(-d1) * k) == l0) by (nonlinear_arith)
        requires
            l0 == e0 * (d0 * k) - e1 * (-d1 * k),
    ;
    assert((-e0) * (-(-d1) * k) + (-e1) * (-d0 * k) == l1) by (nonlinear_arith)
        requires
            l1 == e0 * (-d1 * k) + e1 * (d0 * k),
    ;
    lemma_slope_times_run(e0, e1, d0, d1, k);
}

/// `(e * (d0 k - d1 k i)) * d == e` when `k` inverts the norm of `d`.
proof fn lemma_slope_times_run(e0: int, e1: int, d0: int, d1: int, k: int)
    requires
        fp2_of(d0, d1).snorm().val() != 0,
        k == fp2_of(d0, d1).snorm().sinv().val() as int,
        fp2_of(d0, d1).snorm() == TinyFp::from_int(d0 * d0 + d1 * d1),
    ensures
        fp2_of(e0 * (d0 * k) - e1 * (-d1 * k), e0 * (-d1 * k) + e1 * (d0 * k)).smul(fp2_of(d0, d1))
            == fp2_of(e0, e1),
{
    let m = PRIME as int;
    let n = d0 * d0 + d1 * d1;
    let l0 = e0 * (d0 * k) - e1 * (-d1 * k);
    let l1 = e0 * (-d1 * k) + e1 * (d0 * k);
    lemma_fp2_ops(l0, l1, d0, d1);
    lemma_chord_identity(e0, e1, d0, d1, k);
    let nn = fp2_of(d0, d1).snorm();
    lemma_small_mod(nn.val(), PRIME as nat);
    TinyFp::lemma_inv_cancel(nn);
    lemma_small_mod(1, PRIME as nat);
    assert(TinyFp::sone().val() == 1);
    assert(nn.smul(nn.sinv()).val() == 1);
    assert((nn.val() as int * k) % m == 1);
    lemma_mul_mod_noop_left(n, k, m);
    lemma_mod_equivalence(n * k, 1, m);
    let g = n * k - 1;
    assert(e0 * (n * k) - e0 == e0 * g && e1 * (n * k) - e1 == e1 * g) by (nonlinear_arith)
        requires
            g == n * k - 1,
    ;
    lemma_mul_mod_noop_right(e0, g, m);
    lemma_mul_mod_noop_right(e1, g, m);
    lemma_small_mod(0, PRIME as nat);
    lemma_fp2_congruent(e0 * (n * k), e1 * (n * k), e0, e1);
}


/// With `lambda * (x2 - x1) == y2 - y1`, the chord formulas give the same point in either
/// order.
proof fn lemma_g2_chord_sym(x1: Fp2, y1: Fp2, x2: Fp2, y2: Fp2, lambda: Fp2)
    requires
        x1.c0.canon() && x1.c1.canon() && x2.c0.canon() && x2.c1.canon(),
        y1.c0.canon() && y1.c1.canon() && y2.c0.canon() && y2.c1.canon(),
        lambda.c0.canon() && lambda.c1.canon(),
        lambda.smul(x2.ssub(x1)) == y2.ssub(y1),
    ensures
        lambda.smul(lambda).ssub(x1).ssub(x2) == lambda.smul(lambda).ssub(x2).ssub(x1),
        lambda.smul(x1.ssub(lambda.smul(lambda).ssub(x1).ssub(x2))).ssub(y1) == lambda.smul(
            x2.ssub(lambda.smul(lambda).ssub(x1).ssub(x2)),
        ).ssub(y2),
{
    let m = PRIME as int;
    let (x10, x11, x20, x21) = (x1.c0.val() as int, x1.c1.val() as int, x2.c0.val() as int, x2.c1.val() as int);
    let (y10, y11, y20, y21) = (y1.c0.val() as int, y1.c1.val() as int, y2.c0.val() as int, y2.c1.val() as int);
    let (l0, l1) = (lambda.c0.val() as int, lambda.c1.val() as int);
    lemma_fp2_of_canon(x1);
    lemma_fp2_of_canon(x2);
    lemma_fp2_of_canon(y1);
    lemma_fp2_of_canon(y2);
    lemma_fp2_of_canon(lambda);
    let (d0, d1, e0, e1) = (x20 - x10, x21 - x11, y20 - y10, y21 - y11);
    lemma_fp2_ops(x20, x21, x10, x11);
    lemma_fp2_ops(y20, y21, y10, y11);
    lemma_fp2_ops(l0, l1, d0, d1);
    // lambda * d == e, componentwise modulo p
    assert((l0 * d0 - l1 * d1 - e0) % m == 0 && (l0 * d1 + l1 * d0 - e1) % m == 0) by {
        assert(TinyFp::from_int(l0 * d0 - l1 * d1) == TinyFp::from_int(e0));
        assert(TinyFp::from_int(l0 * d1 + l1 * d0) == TinyFp::from_int(e1));
        assert(TinyFp::from_int(l0 * d0 - l1 * d1).val() == (l0 * d0 - l1 * d1) % m);
        assert(TinyFp::from_int(e0).val() == e0 % m);
        assert(TinyFp::from_int(l0 * d1 + l1 * d0).val() == (l0 * d1 + l1 * d0) % m);
        assert(TinyFp::from_int(e1).val() == e1 % m);
        assert((l0 * d0 - l1 * d1) % m == e0 % m);
        assert((l0 * d1 + l1 * d0) % m == e1 % m);
        lemma_mod_equivalence(l0 * d0 - l1 * d1, e0, m);
        lemma_mod_equivalence(l0 * d1 + l1 * d0, e1, m);
    }
    // The two abscissas agree.
    let (ll0, ll1) = (l0 * l0 - l1 * l1, l0 * l1 + l1 * l0);
    lemma_fp2_ops(l0, l1, l0, l1);
    lemma_fp2_ops(ll0, ll1, x10, x11);
    lemma_fp2_ops(ll0 - x10, ll1 - x11, x20, x21);
    lemma_fp2_ops(ll0, ll1, x20, x21);
    lemma_fp2_ops(ll0 - x20, ll1 - x21, x10, x11);
    assert(ll0 - x10 - x20 == ll0 - x20 - x10 && ll1 - x11 - x21 == ll1 - x21 - x11);
    let x3 = lambda.smul(lambda).ssub(x1).ssub(x2);
    // The two ordinates agree.
    TinyFp::lemma_from_val(x3.c0);
    TinyFp::lemma_from_val(x3.c1);
    let (x30, x31) = (x3.c0.val() as int, x3.c1.val() as int);
    assert(x3 == fp2_of(x30, x31));
    lemma_fp2_ops(x10, x11, x30, x31);
    lemma_fp2_ops(x20, x21, x30, x31);
    lemma_fp2_ops(l0, l1, x10 - x30, x11 - x31);
    lemma_fp2_ops(l0, l1, x20 - x30, x21 - x31);
    let p0 = l0 * (x10 - x30) - l1 * (x11 - x31);
    let p1 = l0 * (x11 - x31) + l1 * (x10 - x30);
    let q0 = l0 * (x20 - x30) - l1 * (x21 - x31);
    let q1 = l0 * (x21 - x31) + l1 * (x20 - x30);
    lemma_fp2_ops(p0, p1, y10, y11);
    lemma_fp2_ops(q0, q1, y20, y21);
    assert((p0 - y10) - (q0 - y20) == -(l0 * d0 - l1 * d1 - e0)) by (nonlinear_arith)
        requires
            p0 == l0 * (x10 - x30) - l1 * (x11 - x31),
            q0 == l0 * (x20 - x30) - l1 * (x21 - x31),
            d0 == x20 - x10,
            d1 == x21 - x11,
            e0 == y20 - y10,
    ;
    assert((p1 - y11) - (q1 - y21) == -(l0 * d1 + l1 * d0 - e1)) by (nonlinear_arith)
        requires
            p1 == l0 * (x11 - x31) + l1 * (x10 - x30),
            q1 == l0 * (x21 - x31) + l1 * (x20 - x30),
            d0 == x20 - x10,
            d1 == x21 - x11,
            e1 == y21 - y11,
    ;
    lemma_mul_mod_noop_right(-1, l0 * d0 - l1 * d1 - e0, m);
    lemma_mul_mod_noop_right(-1, l0 * d1 + l1 * d0 - e1, m);
    lemma_small_mod(0, PRIME as nat);
    lemma_fp2_congruent(p0 - y10, p1 - y11, q0 - y20, q1 - y21);
}

/// The line through `(x1, y1)` of slope `l` meets the cubic `x^3 + 3` where
/// `c(x) = x^3 + 3 - (l (x - x1) + y1)^2` vanishes.  With `t = l^2` and `m = l y1`,
/// `c(x) == alpha x + beta` at `x1` and `x2`, and at `x3` up to a multiple of
/// `x1 + x2 + x3 - t`.
proof fn lemma_chord_cubic(t: int, m: int, x1: int, x2: int, x3: int, y1: int)
    ensures
        ({
            let alpha = t * x1 - t * x2 - 2 * m + x1 * x1 + x1 * x2 + x2 * x2;
            let beta = -t * x1 * x1 + t * x1 * x2 + 2 * m * x1 - x1 * x1 * x2 - x1 * x2 * x2 - y1 * y1 + 3;
            &&& x1 * x1 * x1 + 3 - y1 * y1 == alpha * x1 + beta
            &&& x2 * x2 * x2 + 3 - (t * ((x2 - x1) * (x2 - x1)) + 2 * m * (x2 - x1) + y1 * y1) == alpha * x2
                + beta
            &&& x3 * x3 * x3 + 3 - (t * ((x3 - x1) * (x3 - x1)) + 2 * m * (x3 - x1) + y1 * y1) - (alpha * x3
                + beta) == (x1 + x2 + x3 - t) * ((x3 - x1) * (x3 - x2))
        }),
{
    let alpha = t * x1 - t * x2 - 2 * m + x1 * x1 + x1 * x2 + x2 * x2;
    let beta = -t * x1 * x1 + t * x1 * x2 + 2 * m * x1 - x1 * x1 * x2 - x1 * x2 * x2 - y1 * y1 + 3;
    assert(x1 * x1 * x1 + 3 - y1 * y1 == alpha * x1 + beta) by (nonlinear_arith)
        requires
            alpha == t * x1 - t * x2 - 2 * m + x1 * x1 + x1 * x2 + x2 * x2,
            beta == -t * x1 * x1 + t * x1 * x2 + 2 * m * x1 - x1 * x1 * x2 - x1 * x2 * x2 - y1 * y1 + 3,
    ;
    // At x2.
    lemma_cubic_at(t, m, x1, x2);
    assert(alpha * x2 == t * x1 * x2 - t * x2 * x2 - 2 * m * x2 + x1 * x1 * x2 + x1 * x2 * x2 + x2 * x2 * x2)
        by (nonlinear_arith)
        requires
            alpha == t * x1 - t * x2 - 2 * m + x1 * x1 + x1 * x2 + x2 * x2,
    ;
    assert(x2 * x2 * x2 + 3 - (t * ((x2 - x1) * (x2 - x1)) + 2 * m * (x2 - x1) + y1 * y1) == alpha * x2 + beta)
        by (nonlinear_arith)
        requires
            t * ((x2 - x1) * (x2 - x1)) == t * x2 * x2 - 2 * t * x1 * x2 + t * x1 * x1,
            2 * m * (x2 - x1) == 2 * m * x2 - 2 * m * x1,
            alpha * x2 == t * x1 * x2 - t * x2 * x2 - 2 * m * x2 + x1 * x1 * x2 + x1 * x2 * x2 + x2 * x2 * x2,
            beta == -t * x1 * x1 + t * x1 * x2 + 2 * m * x1 - x1 * x1 * x2 - x1 * x2 * x2 - y1 * y1 + 3,
    ;
    // At x3.
    lemma_cubic_at(t, m, x1, x3);
    let q = (x3 - x1) * (x3 - x2);
    assert(q == x1 * x2 - x1 * x3 - x2 * x3 + x3 * x3) by (nonlinear_arith)
        requires
            q == (x3 - x1) * (x3 - x2),
    ;
    let (q1, q2, q3, qt) = (x1 * q, x2 * q, x3 * q, t * q);
    assert((x1 + x2 + x3 - t) * q == q1 + q2 + q3 - qt) by (nonlinear_arith)
        requires
            q1 == x1 * q,
            q2 == x2 * q,
            q3 == x3 * q,
            qt == t * q,
    ;
    assert(q1 == x1 * x1 * x2 - x1 * x1 * x3 - x1 * x2 * x3 + x1 * x3 * x3) by (nonlinear_arith)
        requires
            q1 == x1 * q,
            q == x1 * x2 - x1 * x3 - x2 * x3 + x3 * x3,
    ;
    assert(q2 == x1 * x2 * x2 - x1 * x2 * x3 - x2 * x2 * x3 + x2 * x3 * x3) by (nonlinear_arith)
        requires
            q2 == x2 * q,
            q == x1 * x2 - x1 * x3 - x2 * x3 + x3 * x3,
    ;
    assert(q3 == x1 * x2 * x3 - x1 * x3 * x3 - x2 * x3 * x3 + x3 * x3 * x3) by (nonlinear_arith)
        requires
            q3 == x3 * q,
            q == x1 * x2 - x1 * x3 - x2 * x3 + x3 * x3,
    ;
    assert(qt == t * (x1 * x2) - t * (x1 * x3) - t * (x2 * x3) + t * (x3 * x3)) by (nonlinear_arith)
        requires
            qt == t * q,
            q == x1 * x2 - x1 * x3 - x2 * x3 + x3 * x3,
    ;
    assert(t * (x1 * x2) == t * x1 * x2 && t * (x1 * x3) == t * x1 * x3 && t * (x2 * x3) == t * x2 * x3
        && t * (x3 * x3) == t * x3 * x3) by (nonlinear_arith);
    let ax3 = alpha * x3;
    assert(ax3 == t * x1 * x3 - t * x2 * x3 - 2 * m * x3 + x1 * x1 * x3 + x1 * x2 * x3 + x2 * x2 * x3)
        by (nonlinear_arith)
        requires
            ax3 == alpha * x3,
            alpha == t * x1 - t * x2 - 2 * m + x1 * x1 + x1 * x2 + x2 * x2,
    ;
    let (sq, lin) = (t * ((x3 - x1) * (x3 - x1)), 2 * m * (x3 - x1));
    assert(x3 * x3 * x3 + 3 - (sq + lin + y1 * y1) - (ax3 + beta) == q1 + q2 + q3 - qt) by (nonlinear_arith)
        requires
            sq == t * x3 * x3 - 2 * t * x1 * x3 + t * x1 * x1,
            lin == 2 * m * x3 - 2 * m * x1,
            ax3 == t * x1 * x3 - t * x2 * x3 - 2 * m * x3 + x1 * x1 * x3 + x1 * x2 * x3 + x2 * x2 * x3,
            beta == -t * x1 * x1 + t * x1 * x2 + 2 * m * x1 - x1 * x1 * x2 - x1 * x2 * x2 - y1 * y1 + 3,
            q1 == x1 * x1 * x2 - x1 * x1 * x3 - x1 * x2 * x3 + x1 * x3 * x3,
            q2 == x1 * x2 * x2 - x1 * x2 * x3 - x2 * x2 * x3 + x2 * x3 * x3,
            q3 == x1 * x2 * x3 - x1 * x3 * x3 - x2 * x3 * x3 + x3 * x3 * x3,
            qt == t * x1 * x2 - t * x1 * x3 - t * x2 * x3 + t * x3 * x3,
    ;
}

/// The tangent at `(x1, y1)` of slope `l`: with `t = l^2`, `m = l y1`,
/// `c(x) == alpha x + beta` at `x1`, and at `x3` up to a multiple of `2 x1 + x3 - t`.
proof fn lemma_tangent_cubic(t: int, m: int, x1: int, x3: int, y1: int)
    ensures
        ({
            let alpha = 3 * x1 * x1 - 2 * m;
            let beta = 2 * m * x1 - 2 * x1 * x1 * x1 - y1 * y1 + 3;
            &&& x1 * x1 * x1 + 3 - y1 * y1 == alpha * x1 + beta
            &&& x3 * x3 * x3 + 3 - (t * ((x3 - x1) * (x3 - x1)) + 2 * m * (x3 - x1) + y1 * y1) - (alpha * x3
                + beta) == (2 * x1 + x3 - t) * ((x3 - x1) * (x3 - x1))
        }),
{
    let alpha = 3 * x1 * x1 - 2 * m;
    let beta = 2 * m * x1 - 2 * x1 * x1 * x1 - y1 * y1 + 3;
    assert(x1 * x1 * x1 + 3 - y1 * y1 == alpha * x1 + beta) by (nonlinear_arith)
        requires
            alpha == 3 * x1 * x1 - 2 * m,
            beta == 2 * m * x1 - 2 * x1 * x1 * x1 - y1 * y1 + 3,
    ;
    lemma_cubic_at(t, m, x1, x3);
    let q = (x3 - x1) * (x3 - x1);
    assert(q == x3 * x3 - 2 * x1 * x3 + x1 * x1) by (nonlinear_arith)
        requires
            q == (x3 - x1) * (x3 - x1),
    ;
    let (q1, q3, qt) = (x1 * q, x3 * q, t * q);
    assert((2 * x1 + x3 - t) * q == 2 * q1 + q3 - qt) by (nonlinear_arith)
        requires
            q1 == x1 * q,
            q3 == x3 * q,
            qt == t * q,
    ;
    assert(q1 == x1 * x3 * x3 - 2 * x1 * x1 * x3 + x1 * x1 * x1) by (nonlinear_arith)
        requires
            q1 == x1 * q,
            q == x3 * x3 - 2 * x1 * x3 + x1 * x1,
    ;
    assert(q3 == x3 * x3 * x3 - 2 * x1 * x3 * x3 + x1 * x1 * x3) by (nonlinear_arith)
        requires
            q3 == x3 * q,
            q == x3 * x3 - 2 * x1 * x3 + x1 * x1,
    ;
    assert(qt == t * (x3 * x3) - 2 * (t * (x1 * x3)) + t * (x1 * x1)) by (nonlinear_arith)
        requires
            qt == t * q,
            q == x3 * x3 - 2 * x1 * x3 + x1 * x1,
    ;
    assert(t * (x3 * x3) == t * x3 * x3 && t * (x1 * x3) == t * x1 * x3 && t * (x1 * x1) == t * x1 * x1)
        by (nonlinear_arith);
    let ax3 = alpha * x3;
    assert(ax3 == 3 * x1 * x1 * x3 - 2 * m * x3) by (nonlinear_arith)
        requires
            ax3 == alpha * x3,
            alpha == 3 * x1 * x1 - 2 * m,
    ;
    let (sq, lin) = (t * ((x3 - x1) * (x3 - x1)), 2 * m * (x3 - x1));
    assert(x3 * x3 * x3 + 3 - (sq + lin + y1 * y1) - (ax3 + beta) == 2 * q1 + q3 - qt) by (nonlinear_arith)
        requires
            sq == t * x3 * x3 - 2 * t * x1 * x3 + t * x1 * x1,
            lin == 2 * m * x3 - 2 * m * x1,
            ax3 == 3 * x1 * x1 * x3 - 2 * m * x3,
            beta == 2 * m * x1 - 2 * x1 * x1 * x1 - y1 * y1 + 3,
            q1 == x1 * x3 * x3 - 2 * x1 * x1 * x3 + x1 * x1 * x1,
            q3 == x3 * x3 * x3 - 2 * x1 * x3 * x3 + x1 * x1 * x3,
            qt == t * x3 * x3 - 2 * (t * x1 * x3) + t * x1 * x1,
    ;
}

/// `(l u + y1)^2 == l^2 u^2 + 2 (l y1) u + y1^2`.
proof fn lemma_line_square(l: int, y1: int, u: int)
    ensures
        (l * u + y1) * (l * u + y1) == (l * l) * (u * u) + 2 * (l * y1) * u + y1 * y1,
{
    assert((l * u + y1) * (l * u + y1) == (l * l) * (u * u) + 2 * (l * y1) * u + y1 * y1) by (nonlinear_arith);
}

/// Congruent integers have congruent squares and cubes modulo the field's order.
proof fn lemma_cong_powers(a: int, b: int)
    requires
        (a - b) % (PRIME as int) == 0,
    ensures
        (a * a - b * b) % (PRIME as int) == 0,
        (a * a * a - b * b * b) % (PRIME as int) == 0,
{
    let m = PRIME as int;
    assert(a * a - b * b == (a - b) * (a + b)) by (nonlinear_arith);
    assert(a * a * a - b * b * b == (a - b) * (a * a + a * b + b * b)) by (nonlinear_arith);
    lemma_mul_mod_noop_left(a - b, a + b, m);
    lemma_mul_mod_noop_left(a - b, a * a + a * b + b * b, m);
    lemma_small_mod(0, PRIME as nat);
}

/// If `a * d == 0` modulo the field's order and `d` is not, then `a` is.
proof fn lemma_int_cancel(a: int, d: int)
    requires
        (a * d) % (PRIME as int) == 0,
        d % (PRIME as int) != 0,
    ensures
        a % (PRIME as int) == 0,
{
    let m = PRIME as int;
    lemma_mul_mod_noop(a, d, m);
    if a % m != 0 {
        lemma_prime_101();
        lemma_mod_twice(a, m);
        lemma_mod_twice(d, m);
        lemma_no_zero_divisors((a % m) as nat, (d % m) as nat, PRIME as nat);
    }
}

/// The third intersection of the chord through two points of `y^2 = x^3 + 3` (modulo the
/// field's order, with distinct abscissas) is on the curve.
proof fn lemma_chord_on_curve(x1: int, y1: int, x2: int, y2: int, l: int)
    requires
        (y1 * y1 - (x1 * x1 * x1 + 3)) % (PRIME as int) == 0,
        (y2 * y2 - (x2 * x2 * x2 + 3)) % (PRIME as int) == 0,
        (l * (x2 - x1) - (y2 - y1)) % (PRIME as int) == 0,
        (x2 - x1) % (PRIME as int) != 0,
    ensures
        ({
            let x3 = l * l - x1 - x2;
            let y3 = l * (x1 - x3) - y1;
            (y3 * y3 - (x3 * x3 * x3 + 3)) % (PRIME as int) == 0
        }),
{
    let m = PRIME as int;
    let t = l * l;
    let mm = l * y1;
    let x3 = t - x1 - x2;
    let y3 = l * (x1 - x3) - y1;
    lemma_chord_cubic(t, mm, x1, x2, x3, y1);
    let alpha = t * x1 - t * x2 - 2 * mm + x1 * x1 + x1 * x2 + x2 * x2;
    let beta = -t * x1 * x1 + t * x1 * x2 + 2 * mm * x1 - x1 * x1 * x2 - x1 * x2 * x2 - y1 * y1 + 3;
    lemma_line_square(l, y1, x2 - x1);
    lemma_line_square(l, y1, x3 - x1);
    lemma_small_mod(0, PRIME as nat);
    // c(x1) == alpha x1 + beta == 0
    lemma_sub_mod_noop(0, y1 * y1 - (x1 * x1 * x1 + 3), m);
    assert((alpha * x1 + beta) % m == 0);
    // c(x2) == alpha x2 + beta == 0, as l (x2 - x1) + y1 == y2
    let w = l * (x2 - x1) + y1;
    lemma_cong_powers(w, y2);
    let c2 = x2 * x2 * x2 + 3 - w * w;
    assert(c2 == alpha * x2 + beta);
    assert(c2 == -(y2 * y2 - (x2 * x2 * x2 + 3)) - (w * w - y2 * y2));
    lemma_sub_mod_noop(-(y2 * y2 - (x2 * x2 * x2 + 3)), w * w - y2 * y2, m);
    lemma_sub_mod_noop(0, y2 * y2 - (x2 * x2 * x2 + 3), m);
    assert((alpha * x2 + beta) % m == 0);
    // so alpha (x2 - x1) == 0 and alpha == 0, beta == 0
    assert(alpha * (x2 - x1) == (alpha * x2 + beta) - (alpha * x1 + beta)) by (nonlinear_arith);
    lemma_sub_mod_noop(alpha * x2 + beta, alpha * x1 + beta, m);
    lemma_int_cancel(alpha, x2 - x1);
    lemma_mul_mod_noop_left(alpha, x1, m);
    lemma_mul_mod_noop_left(alpha, x3, m);
    lemma_sub_mod_noop(alpha * x1 + beta, alpha * x1, m);
    // c(x3) == alpha x3 + beta == 0, and y3^2 == (l (x3 - x1) + y1)^2
    assert((x1 + x2 + x3 - t) * ((x3 - x1) * (x3 - x2)) == 0);
    lemma_add_mod_noop(alpha * x3, beta, m);
    assert(y3 == -(l * (x3 - x1) + y1)) by (nonlinear_arith)
        requires
            y3 == l * (x1 - x3) - y1,
    ;
    let v = l * (x3 - x1) + y1;
    assert(y3 * y3 == v * v) by (nonlinear_arith)
        requires
            y3 == -v,
    ;
    lemma_sub_mod_noop(0, alpha * x3 + beta, m);
}

/// The second intersection of the tangent at a point of `y^2 = x^3 + 3` (modulo the
/// field's order) is on the curve.
proof fn lemma_tangent_on_curve(x1: int, y1: int, l: int)
    requires
        (y1 * y1 - (x1 * x1 * x1 + 3)) % (PRIME as int) == 0,
        (l * (2 * y1) - 3 * x1 * x1) % (PRIME as int) == 0,
    ensures
        ({
            let x3 = l * l - 2 * x1;
            let y3 = l * (x1 - x3) - y1;
            (y3 * y3 - (x3 * x3 * x3 + 3)) % (PRIME as int) == 0
        }),
{
    let m = PRIME as int;
    let t = l * l;
    let mm = l * y1;
    let x3 = t - 2 * x1;
    let y3 = l * (x1 - x3) - y1;
    lemma_tangent_cubic(t, mm, x1, x3, y1);
    let alpha = 3 * x1 * x1 - 2 * mm;
    let beta = 2 * mm * x1 - 2 * x1 * x1 * x1 - y1 * y1 + 3;
    lemma_line_square(l, y1, x3 - x1);
    lemma_small_mod(0, PRIME as nat);
    assert(l * (2 * y1) == 2 * mm) by (nonlinear_arith)
        requires
            mm == l * y1,
    ;
    lemma_sub_mod_noop(0, l * (2 * y1) - 3 * x1 * x1, m);
    assert(alpha % m == 0);
    lemma_sub_mod_noop(0, y1 * y1 - (x1 * x1 * x1 + 3), m);
    lemma_mul_mod_noop_left(alpha, x1, m);
    lemma_mul_mod_noop_left(alpha, x3, m);
    lemma_sub_mod_noop(alpha * x1 + beta, alpha * x1, m);
    assert((2 * x1 + x3 - t) * ((x3 - x1) * (x3 - x1)) == 0) by (nonlinear_arith)
        requires
            x3 == t - 2 * x1,
    ;
    lemma_add_mod_noop(alpha * x3, beta, m);
    assert(y3 == -(l * (x3 - x1) + y1)) by (nonlinear_arith)
        requires
            y3 == l * (x1 - x3) - y1,
    ;
    let v = l * (x3 - x1) + y1;
    assert(y3 * y3 == v * v) by (nonlinear_arith)
        requires
            y3 == -v,
    ;
    lemma_sub_mod_noop(0, alpha * x3 + beta, m);
}

/// `c(x) = x^3 + 3 - (t (x - x1)^2 + 2 m (x - x1) + y1^2)` with its products expanded.
proof fn lemma_cubic_at(t: int, m: int, x1: int, x: int)
    ensures
        (x - x1) * (x - x1) == x * x - 2 * x1 * x + x1 * x1,
        t * ((x - x1) * (x - x1)) == t * x * x - 2 * t * x1 * x + t * x1 * x1,
        2 * m * (x - x1) == 2 * m * x - 2 * m * x1,
{
    assert((x - x1) * (x - x1) == x * x - 2 * x1 * x + x1 * x1) by (nonlinear_arith);
    assert(t * (x * x - 2 * x1 * x + x1 * x1) == t * x * x - 2 * t * x1 * x + t * x1 * x1) by (nonlinear_arith);
    assert(2 * m * (x - x1) == 2 * m * x - 2 * m * x1) by (nonlinear_arith);
}

impl From<TinyFp> for Fp2 {
    fn from(x: TinyFp) -> (r: Fp2) {
        Fp2::from_base(x)
    }
}

impl vstd::std_specs::convert::FromSpecImpl<TinyFp> for Fp2 {
    open spec fn obeys_from_spec() -> bool {
        true
    }

    open spec fn from_spec(x: TinyFp) -> Fp2 {
        Fp2::sfrom(x)
    }
}

// ==============================================
// Elliptic curve E: y^2 = x^3 + 3 (affine coordinates)
// ==============================================
/// A point of `E` over `TinyFp`.
#[derive(Clone, Copy, Debug, PartialEq, Eq, Structural)]
pub enum G1Point {
    Infinity,
    Affine { x: TinyFp, y: TinyFp },
}

/// A point of `E` over `Fp2`.
#[derive(Clone, Copy, Debug, PartialEq, Eq, Structural)]
pub enum G2Point {
    Infinity,
    Affine { x: Fp2, y: Fp2 },
}

/// The coefficient `b` of `y^2 = x^3 + b`.
pub const CURVE_B: u64 = 3;

impl G1Point {
    /// `y^2 == x^3 + 3`; the point at infinity is on the curve.
    pub open spec fn on_curve(self) -> bool {
        match self {
            G1Point::Infinity => true,
            G1Point::Affine { x, y } => y.smul(y) == x.smul(x).smul(x).sadd(
                TinyFp::from_int(CURVE_B as int),
            ),
        }
    }

    /// Both coordinates are canonical residues (true of every value built at run time).
    pub open spec fn canon(self) -> bool {
        match self {
            G1Point::Infinity => true,
            G1Point::Affine { x, y } => x.canon() && y.canon(),
        }
    }

    /// Tangent doubling; a point with `y == 0` doubles to infinity.
    pub open spec fn sdouble(self) -> G1Point {
        match self {
            G1Point::Infinity => G1Point::Infinity,
            G1Point::Affine { x, y } => {
                if y.val() == 0 {
                    G1Point::Infinity
                } else {
                    let three = TinyFp::from_int(3);
                    let two = TinyFp::from_int(2);
                    let lambda = three.smul(x).smul(x).smul(two.smul(y).sinv());
                    let x3 = lambda.smul(lambda).ssub(two.smul(x));
                    let y3 = lambda.smul(x.ssub(x3)).ssub(y);
                    G1Point::Affine { x: x3, y: y3 }
                }
            },
        }
    }

    /// Chord-and-tangent addition.
    pub open spec fn sadd(self, o: G1Point) -> G1Point {
        match (self, o) {
            (G1Point::Infinity, _) => o,
            (_, G1Point::Infinity) => self,
            (G1Point::Affine { x: x1, y: y1 }, G1Point::Affine { x: x2, y: y2 }) => {
                if x1 == x2 {
                    if y1 == y2 {
                        self.sdouble()
                    } else {
                        G1Point::Infinity
                    }
                } else {
                    let lambda = y2.ssub(y1).smul(x2.ssub(x1).sinv());
                    let x3 = lambda.smul(lambda).ssub(x1).ssub(x2);
                    let y3 = lambda.smul(x1.ssub(x3)).ssub(y1);
                    G1Point::Affine { x: x3, y: y3 }
                }
            },
        }
    }

    /// `-(x, y) = (x, -y)`.
    pub open spec fn sneg(self) -> G1Point {
        match self {
            G1Point::Infinity => G1Point::Infinity,
            G1Point::Affine { x, y } => G1Point::Affine { x, y: y.sneg() },
        }
    }

    pub open spec fn ssub(self, o: G1Point) -> G1Point {
        self.sadd(o.sneg())
    }

    /// Double-and-add over the low `k` bits of `n`: `acc` collects the sum, `temp` runs
    /// through the doublings of the base point.
    pub open spec fn smul_steps(acc: G1Point, temp: G1Point, n: nat, k: nat) -> G1Point
        decreases k,
    {
        if k == 0 {
            acc
        } else {
            let acc2 = if n % 2 == 1 {
                acc.sadd(temp)
            } else {
                acc
            };
            G1Point::smul_steps(acc2, temp.sdouble(), n / 2, (k - 1) as nat)
        }
    }

    /// `n * self` by double-and-add over the 64 bits of `n`.
    pub open spec fn smul(self, n: nat) -> G1Point {
        G1Point::smul_steps(G1Point::Infinity, self, n, 64)
    }

    /// The generator `(1, 2)`.
    pub open spec fn sgenerator() -> G1Point {
        G1Point::Affine { x: TinyFp::from_int(1), y: TinyFp::from_int(2) }
    }

    /// The point at infinity is the identity: `P + O == P` and `O + P == P`.
    pub proof fn lemma_add_identity(a: G1Point)
        ensures
            a.sadd(G1Point::Infinity) == a,
            G1Point::Infinity.sadd(a) == a,
    {
    }

    /// Adding a point to itself is doubling it.
    pub proof fn lemma_add_self_is_double(a: G1Point)
        ensures
            a.sadd(a) == a.sdouble(),
    {
    }

    /// A point with `y == 0` doubles to the point at infinity.
    pub proof fn lemma_double_of_two_torsion(x: TinyFp, y: TinyFp)
        requires
            y.val() == 0,
        ensures
            (G1Point::Affine { x, y }).sdouble() == G1Point::Infinity,
    {
    }

    /// `P + (-P) == O`, and so `P - P == O`.
    pub proof fn lemma_add_inverse(a: G1Point)
        requires
            a.canon(),
        ensures
            a.sadd(a.sneg()) == G1Point::Infinity,
            a.ssub(a) == G1Point::Infinity,
    {
        if let G1Point::Affine { x, y } = a {
            if y.sneg() == y {
                lemma_neg_fixed(y);
            }
        }
    }

    /// A point given by images of integers is on the curve when the integers satisfy the
    /// curve's equation modulo the field's order.
    proof fn lemma_on_curve_from_int(x: int, y: int)
        requires
            (y * y - (x * x * x + 3)) % (PRIME as int) == 0,
        ensures
            (G1Point::Affine { x: TinyFp::from_int(x), y: TinyFp::from_int(y) }).on_curve(),
    {
        TinyFp::lemma_from_int_ops(y, y);
        TinyFp::lemma_from_int_ops(x, x);
        TinyFp::lemma_from_int_ops(x * x, x);
        TinyFp::lemma_from_int_ops(x * x * x, CURVE_B as int);
        TinyFp::lemma_from_int_congruent(y * y, x * x * x + 3);
    }

    /// The curve's equation on the residues of a canonical point on the curve.
    proof fn lemma_on_curve_vals(x: TinyFp, y: TinyFp)
        requires
            x.canon(),
            y.canon(),
            (G1Point::Affine { x, y }).on_curve(),
        ensures
            ((y.val() * y.val()) as int - (x.val() * x.val() * x.val() + 3) as int) % (PRIME as int) == 0,
    {
        let (xv, yv) = (x.val() as int, y.val() as int);
        TinyFp::lemma_from_val(x);
        TinyFp::lemma_from_val(y);
        TinyFp::lemma_from_int_ops(yv, yv);
        TinyFp::lemma_from_int_ops(xv, xv);
        TinyFp::lemma_from_int_ops(xv * xv, xv);
        TinyFp::lemma_from_int_ops(xv * xv * xv, CURVE_B as int);
        assert(TinyFp::from_int(yv * yv) == TinyFp::from_int(xv * xv * xv + 3));
        assert(TinyFp::from_int(yv * yv).val() == (yv * yv) % (PRIME as int));
        assert(TinyFp::from_int(xv * xv * xv + 3).val() == (xv * xv * xv + 3) % (PRIME as int));
        lemma_mod_equivalence(yv * yv, xv * xv * xv + 3, PRIME as int);
    }

    /// Doubling keeps canonical points on the curve.
    pub proof fn lemma_double_on_curve(a: G1Point)
        requires
            a.canon(),
            a.on_curve(),
        ensures
            a.sdouble().on_curve(),
    {
        if let G1Point::Affine { x, y } = a {
            if y.val() != 0 {
                let m = PRIME as int;
                let (xv, yv) = (x.val() as int, y.val() as int);
                Self::lemma_on_curve_vals(x, y);
                TinyFp::lemma_from_val(x);
                TinyFp::lemma_from_val(y);
                // 2 y is invertible
                assert((2 * yv) % m != 0) by {
                    if (2 * yv) % m == 0 {
                        lemma_small_mod(2, PRIME as nat);
                        lemma_int_cancel(yv, 2);
                        lemma_small_mod(y.val(), PRIME as nat);
                    }
                }
                let j = inv_mod(((2 * yv) % m) as nat, PRIME as nat) as int;
                TinyFp::lemma_from_int_ops(2, yv);
                TinyFp::lemma_from_int_ops(2 * yv, 0);
                TinyFp::lemma_from_int_ops(3, xv);
                TinyFp::lemma_from_int_ops(3 * xv, xv);
                TinyFp::lemma_from_int_ops(3 * xv * xv, j);
                let l = 3 * xv * xv * j;
                let lambda = TinyFp::from_int(l);
                assert(TinyFp::from_int(3).smul(x).smul(x).smul(TinyFp::from_int(2).smul(y).sinv()) == lambda);
                // the slope: l * 2 y == 3 x^2
                lemma_prime_101();
                lemma_inverse_exists(((2 * yv) % m) as nat, PRIME as nat);
                lemma_mul_mod_noop_left(2 * yv, j, m);
                lemma_small_mod(1, PRIME as nat);
                lemma_mod_equivalence(2 * yv * j, 1, m);
                assert(l * (2 * yv) - 3 * xv * xv == (3 * xv * xv) * (2 * yv * j - 1)) by (nonlinear_arith)
                    requires
                        l == 3 * xv * xv * j,
                ;
                lemma_mul_mod_noop_right(3 * xv * xv, 2 * yv * j - 1, m);
                lemma_small_mod(0, PRIME as nat);
                lemma_tangent_on_curve(xv, yv, l);
                // the point's coordinates are the images of the integers
                let x3 = l * l - 2 * xv;
                TinyFp::lemma_from_int_ops(l, l);
                TinyFp::lemma_from_int_ops(2, xv);
                TinyFp::lemma_from_int_ops(l * l, 2 * xv);
                TinyFp::lemma_from_int_ops(xv, x3);
                TinyFp::lemma_from_int_ops(l, xv - x3);
                TinyFp::lemma_from_int_ops(l * (xv - x3), yv);
                Self::lemma_on_curve_from_int(x3, l * (xv - x3) - yv);
            }
        }
    }

    /// Addition keeps canonical points on the curve.
    pub proof fn lemma_add_on_curve(a: G1Point, b: G1Point)
        requires
            a.canon(),
            b.canon(),
            a.on_curve(),
            b.on_curve(),
        ensures
            a.sadd(b).on_curve(),
    {
        if let (G1Point::Affine { x: x1, y: y1 }, G1Point::Affine { x: x2, y: y2 }) = (a, b) {
            if x1 == x2 {
                if y1 == y2 {
                    Self::lemma_double_on_curve(a);
                }
            } else {
                let m = PRIME as int;
                let (xa, ya, xb, yb) = (x1.val() as int, y1.val() as int, x2.val() as int, y2.val() as int);
                Self::lemma_on_curve_vals(x1, y1);
                Self::lemma_on_curve_vals(x2, y2);
                TinyFp::lemma_from_val(x1);
                TinyFp::lemma_from_val(x2);
                TinyFp::lemma_from_val(y1);
                TinyFp::lemma_from_val(y2);
                let d = xb - xa;
                assert(d % m != 0) by {
                    if d % m == 0 {
                        lemma_mod_equivalence(xb, xa, m);
                        lemma_small_mod(x1.val(), PRIME as nat);
                        lemma_small_mod(x2.val(), PRIME as nat);
                        TinyFp::lemma_val_eq(x1, x2);
                    }
                }
                TinyFp::lemma_from_int_ops(yb, ya);
                TinyFp::lemma_from_int_ops(xb, xa);
                let i = inv_mod((d % m) as nat, PRIME as nat);
                let j = inv_mod(((-d) % m) as nat, PRIME as nat);
                Self::lemma_inv_of_opposite(d, i, j);
                TinyFp::lemma_from_int_ops(yb - ya, i as int);
                let l = (yb - ya) * i;
                // the slope: l * (x2 - x1) == y2 - y1
                assert(l * d - (yb - ya) == (yb - ya) * (d * (i as int) - 1)) by (nonlinear_arith)
                    requires
                        l == (yb - ya) * i,
                ;
                lemma_mul_mod_noop_right(yb - ya, d * (i as int) - 1, m);
                lemma_small_mod(0, PRIME as nat);
                lemma_chord_on_curve(xa, ya, xb, yb, l);
                let x3 = l * l - xa - xb;
                TinyFp::lemma_from_int_ops(l, l);
                TinyFp::lemma_from_int_ops(l * l, xa);
                TinyFp::lemma_from_int_ops(l * l - xa, xb);
                TinyFp::lemma_from_int_ops(xa, x3);
                TinyFp::lemma_from_int_ops(l, xa - x3);
                TinyFp::lemma_from_int_ops(l * (xa - x3), ya);
                Self::lemma_on_curve_from_int(x3, l * (xa - x3) - ya);
            }
        }
    }

    /// Negation keeps canonical points on the curve.
    pub proof fn lemma_neg_on_curve(a: G1Point)
        requires
            a.canon(),
            a.on_curve(),
        ensures
            a.sneg().on_curve(),
    {
        if let G1Point::Affine { x, y } = a {
            let (xv, yv) = (x.val() as int, y.val() as int);
            Self::lemma_on_curve_vals(x, y);
            TinyFp::lemma_from_val(x);
            TinyFp::lemma_from_val(y);
            TinyFp::lemma_from_int_ops(yv, 0);
            assert((-yv) * (-yv) == yv * yv) by (nonlinear_arith);
            Self::lemma_on_curve_from_int(xv, -yv);
        }
    }

    proof fn lemma_smul_steps_on_curve(acc: G1Point, temp: G1Point, n: nat, k: nat)
        requires
            acc.canon(),
            temp.canon(),
            acc.on_curve(),
            temp.on_curve(),
        ensures
            G1Point::smul_steps(acc, temp, n, k).canon(),
            G1Point::smul_steps(acc, temp, n, k).on_curve(),
        decreases k,
    {
        if k > 0 {
            Self::lemma_ops_canon(acc, temp);
            Self::lemma_add_on_curve(acc, temp);
            Self::lemma_double_on_curve(temp);
            let acc2 = if n % 2 == 1 {
                acc.sadd(temp)
            } else {
                acc
            };
            Self::lemma_smul_steps_on_curve(acc2, temp.sdouble(), n / 2, (k - 1) as nat);
        }
    }

    /// Scalar multiples of a canonical point on the curve are on the curve.
    pub proof fn lemma_smul_on_curve(a: G1Point, n: nat)
        requires
            a.canon(),
            a.on_curve(),
        ensures
            a.smul(n).on_curve(),
    {
        Self::lemma_smul_steps_on_curve(G1Point::Infinity, a, n, 64);
    }

    /// The inverses of `x2 - x1` and `x1 - x2` are opposite.
    proof fn lemma_inv_of_opposite(a: int, i: nat, j: nat)
        requires
            a % (PRIME as int) != 0,
            i == inv_mod((a % (PRIME as int)) as nat, PRIME as nat),
            j == inv_mod(((-a) % (PRIME as int)) as nat, PRIME as nat),
        ensures
            (a * i - 1) % (PRIME as int) == 0,
            ((i + j) as int) % (PRIME as int) == 0,
    {
        let m = PRIME as int;
        lemma_prime_101();
        lemma_mod_bound(a, m);
        lemma_mod_bound(-a, m);
        lemma_mod_twice(a, m);
        assert(((-a) % m) % m != 0) by {
            lemma_mod_twice(-a, m);
            if (-a) % m == 0 {
                lemma_sub_mod_noop(0, a, m);
                lemma_small_mod(0, PRIME as nat);
                lemma_mod_equivalence(0, a, m);
            }
        }
        lemma_inverse_exists((a % m) as nat, PRIME as nat);
        lemma_inverse_exists(((-a) % m) as nat, PRIME as nat);
        lemma_mul_mod_noop_left(a, i as int, m);
        lemma_mul_mod_noop_left(-a, j as int, m);
        lemma_small_mod(1, PRIME as nat);
        lemma_mod_equivalence(a * i, 1, m);
        assert(a * ((i + j) as int) == a * i - (-a) * j) by (nonlinear_arith);
        lemma_sub_mod_noop(a * i, (-a) * j, m);
        assert((a * ((i + j) as int)) % m == 0);
        lemma_mul_mod_noop_left(a, (i + j) as int, m);
        if ((i + j) as nat) % (PRIME as nat) != 0 {
            lemma_no_zero_divisors((a % m) as nat, (i + j) as nat, PRIME as nat);
        }
    }

    /// Addition of canonical points is commutative.
    pub proof fn lemma_add_commutative(a: G1Point, b: G1Point)
        requires
            a.canon(),
            b.canon(),
        ensures
            a.sadd(b) == b.sadd(a),
    {
        if let (G1Point::Affine { x: x1, y: y1 }, G1Point::Affine { x: x2, y: y2 }) = (a, b) {
            if x1 != x2 {
                let m = PRIME as int;
                let (xa, ya, xb, yb) = (x1.val() as int, y1.val() as int, x2.val() as int, y2.val() as int);
                TinyFp::lemma_from_val(x1);
                TinyFp::lemma_from_val(x2);
                TinyFp::lemma_from_val(y1);
                TinyFp::lemma_from_val(y2);
                let d = xb - xa;
                assert(d % m != 0) by {
                    if d % m == 0 {
                        lemma_mod_equivalence(xb, xa, m);
                        lemma_small_mod(x1.val(), PRIME as nat);
                        lemma_small_mod(x2.val(), PRIME as nat);
                        TinyFp::lemma_val_eq(x1, x2);
                    }
                }
                TinyFp::lemma_from_int_ops(yb, ya);
                TinyFp::lemma_from_int_ops(ya, yb);
                TinyFp::lemma_from_int_ops(xb, xa);
                TinyFp::lemma_from_int_ops(xa, xb);
                let i = inv_mod((d % m) as nat, PRIME as nat);
                let j = inv_mod(((-d) % m) as nat, PRIME as nat);
                assert(xa - xb == -d);
                Self::lemma_inv_of_opposite(d, i, j);
                // The two slopes agree.
                TinyFp::lemma_from_int_ops(yb - ya, i as int);
                TinyFp::lemma_from_int_ops(ya - yb, j as int);
                let l = (yb - ya) * i;
                assert(l - (ya - yb) * j == (yb - ya) * ((i + j) as int)) by (nonlinear_arith)
                    requires
                        l == (yb - ya) * i,
                ;
                lemma_mul_mod_noop_right(yb - ya, (i + j) as int, m);
                TinyFp::lemma_from_int_congruent(l, (ya - yb) * j);
                let lambda = TinyFp::from_int(l);
                assert(y2.ssub(y1).smul(x2.ssub(x1).sinv()) == lambda);
                assert(y1.ssub(y2).smul(x1.ssub(x2).sinv()) == lambda);
                // The two abscissas agree.
                let ll = lambda.smul(lambda).val() as int;
                TinyFp::lemma_from_val(lambda.smul(lambda));
                TinyFp::lemma_from_int_ops(ll, xa);
                TinyFp::lemma_from_int_ops(ll, xb);
                TinyFp::lemma_from_int_ops(ll - xa, xb);
                TinyFp::lemma_from_int_ops(ll - xb, xa);
                assert(ll - xa - xb == ll - xb - xa);
                let x3 = lambda.smul(lambda).ssub(x1).ssub(x2);
                assert(x3 == lambda.smul(lambda).ssub(x2).ssub(x1));
                // The two ordinates agree: lambda * (x2 - x1) == y2 - y1.
                let x3v = x3.val() as int;
                TinyFp::lemma_from_val(x3);
                TinyFp::lemma_from_int_ops(xa, x3v);
                TinyFp::lemma_from_int_ops(xb, x3v);
                TinyFp::lemma_from_int_ops(l, xa - x3v);
                TinyFp::lemma_from_int_ops(l, xb - x3v);
                TinyFp::lemma_from_int_ops(l * (xa - x3v), ya);
                TinyFp::lemma_from_int_ops(l * (xb - x3v), yb);
                let e = d * (i as int) - 1;
                assert((l * (xa - x3v) - ya) - (l * (xb - x3v) - yb) == -(yb - ya) * e) by (nonlinear_arith)
                    requires
                        l == (yb - ya) * i,
                        d == xb - xa,
                        e == d * (i as int) - 1,
                ;
                lemma_mul_mod_noop_right(-(yb - ya), e, m);
                TinyFp::lemma_from_int_congruent(l * (xa - x3v) - ya, l * (xb - x3v) - yb);
            }
        }
    }

    pub(crate) proof fn lemma_smul_steps_zero(acc: G1Point, temp: G1Point, k: nat)
        ensures
            G1Point::smul_steps(acc, temp, 0, k) == acc,
        decreases k,
    {
        if k > 0 {
            Self::lemma_smul_steps_zero(acc, temp.sdouble(), (k - 1) as nat);
        }
    }

    /// Results of the group operations are canonical.
    pub proof fn lemma_ops_canon(a: G1Point, b: G1Point)
        requires
            a.canon(),
            b.canon(),
        ensures
            a.sdouble().canon(),
            a.sadd(b).canon(),
            a.sneg().canon(),
    {
    }

    /// Double-and-add agrees with repeated addition on the first multiples:
    /// `0 * P == O`, `1 * P == P`, `2 * P == P + P` and `3 * P == (P + P) + P`.
    pub proof fn lemma_smul_small(a: G1Point)
        requires
            a.canon(),
        ensures
            a.smul(0) == G1Point::Infinity,
            a.smul(1) == a,
            a.smul(2) == a.sadd(a),
            a.smul(3) == a.sadd(a).sadd(a),
    {
        Self::lemma_smul_steps_zero(G1Point::Infinity, a, 64);
        let d = a.sdouble();
        Self::lemma_smul_steps_zero(a, d, 63);
        Self::lemma_smul_steps_zero(d, d.sdouble(), 62);
        Self::lemma_smul_steps_zero(a.sadd(d), d.sdouble(), 62);
        assert(G1Point::smul_steps(G1Point::Infinity, a, 2, 64) == G1Point::smul_steps(
            G1Point::Infinity,
            d,
            1,
            63,
        ));
        assert(G1Point::smul_steps(G1Point::Infinity, d, 1, 63) == G1Point::smul_steps(
            d,
            d.sdouble(),
            0,
            62,
        ));
        assert(G1Point::smul_steps(G1Point::Infinity, a, 3, 64) == G1Point::smul_steps(a, d, 1, 63));
        assert(G1Point::smul_steps(a, d, 1, 63) == G1Point::smul_steps(a.sadd(d), d.sdouble(), 0, 62));
        Self::lemma_ops_canon(a, a);
        Self::lemma_add_commutative(a, d);
    }

    pub fn is_on_curve(&self) -> (r: bool)
        ensures
            r == self.on_curve(),
    {
        match self {
            G1Point::Affine { x, y } => {
                let lhs = y.mul(y);
                let rhs = x.mul(x).mul(x).add(&TinyFp::from_u64(CURVE_B));
                lhs == rhs
            },
            G1Point::Infinity => true,
        }
    }

    /// The generator `(1, 2)` of the group of order 17.
    pub fn generator() -> (r: G1Point)
        ensures
            r == G1Point::sgenerator(),
            r.on_curve(),
    {
        let point = G1Point::Affine { x: TinyFp::from_u64(1), y: TinyFp::from_u64(2) };
        proof {
            assert(TinyFp::from_int(2).val() == 2);
            assert(TinyFp::from_int(1).val() == 1);
            assert(TinyFp::from_int(3).val() == 3);
            assert(TinyFp::from_int(4).val() == 4);
            assert(TinyFp::from_int(2).smul(TinyFp::from_int(2)) == TinyFp::from_int(4));
            assert(TinyFp::from_int(2).smul(TinyFp::from_int(2)).val() == 4);
            assert(TinyFp::from_int(1).smul(TinyFp::from_int(1)).smul(TinyFp::from_int(1)).sadd(
                TinyFp::from_int(3),
            ).val() == 4);
            TinyFp::lemma_val_eq(
                TinyFp::from_int(2).smul(TinyFp::from_int(2)),
                TinyFp::from_int(1).smul(TinyFp::from_int(1)).smul(TinyFp::from_int(1)).sadd(
                    TinyFp::from_int(3),
                ),
            );
        }
        point
    }

    pub fn add(&self, other: &G1Point) -> (r: G1Point)
        ensures
            r == self.sadd(*other),
    {
        match (self, other) {
            (G1Point::Infinity, _) => *other,
            (_, G1Point::Infinity) => *self,
            (G1Point::Affine { x: x1, y: y1 }, G1Point::Affine { x: x2, y: y2 }) => {
                if x1 == x2 {
                    if y1 == y2 {
                        return self.double();
                    } else {
                        return G1Point::Infinity;
                    }
                }
                proof {
                    use_type_invariant(x1);
                    use_type_invariant(x2);
                    if x1.val() == x2.val() {
                        TinyFp::lemma_val_eq(*x1, *x2);
                    }
                }
                // standard point addition
                let dx = x2.sub(x1);
                assert(dx.val() != 0);
                let lambda = y2.sub(y1).mul(&dx.inverse().unwrap());
                let x3 = lambda.mul(&lambda).sub(x1).sub(x2);
                let y3 = lambda.mul(&x1.sub(&x3)).sub(y1);
                G1Point::Affine { x: x3, y: y3 }
            },
        }
    }

    /// Point doubling.
    pub fn double(&self) -> (r: G1Point)
        ensures
            r == self.sdouble(),
    {
        match self {
            G1Point::Infinity => G1Point::Infinity,
            G1Point::Affine { x, y } => {
                if y.is_zero() {
                    return G1Point::Infinity;
                }
                proof {
                    use_type_invariant(y);
                }
                let three = TinyFp::from_u64(3);
                let two = TinyFp::from_u64(2);
                let two_y = two.mul(y);
                assert(two_y.val() != 0);
                let lambda = three.mul(x).mul(x).mul(&two_y.inverse().unwrap());
                let x3 = lambda.mul(&lambda).sub(&two.mul(x));
                let y3 = lambda.mul(&x.sub(&x3)).sub(y);
                G1Point::Affine { x: x3, y: y3 }
            },
        }
    }

    /// Point negation `-(x, y) = (x, -y)`.
    pub fn negate(&self) -> (r: G1Point)
        ensures
            r == self.sneg(),
    {
        match self {
            G1Point::Infinity => G1Point::Infinity,
            G1Point::Affine { x, y } => G1Point::Affine { x: *x, y: y.neg() },
        }
    }

    pub fn sub(&self, other: &G1Point) -> (r: G1Point)
        ensures
            r == self.ssub(*other),
    {
        self.add(&other.negate())
    }

    /// `n * self` by double-and-add over the 64 bits of `n`.
    pub fn scalar_mul(&self, n: u64) -> (r: G1Point)
        ensures
            r == self.smul(n as nat),
    {
        let mut result = G1Point::Infinity;
        let mut temp = *self;
        let mut bits = n;
        let mut i: u64 = 0;
        while i < 64
            invariant
                i <= 64,
                G1Point::smul_steps(result, temp, bits as nat, (64 - i) as nat) == self.smul(
                    n as nat,
                ),
            decreases 64 - i,
        {
            if bits % 2 == 1 {
                result = result.add(&temp);
            }
            temp = temp.double();
            bits = bits / 2;
            i = i + 1;
        }
        result
    }

    /// Multiplication by a scalar-field element, through its canonical residue.
    pub fn scalar_mul_fr(&self, s: ScalarField) -> (r: G1Point)
        ensures
            r == self.smul(s.val()),
    {
        self.scalar_mul(s.value())
    }
}


impl G2Point {
    /// `y^2 == x^3 + 3` over `Fp2`; the point at infinity is on the curve.
    pub open spec fn on_curve(self) -> bool {
        match self {
            G2Point::Infinity => true,
            G2Point::Affine { x, y } => y.smul(y) == x.smul(x).smul(x).sadd(
                Fp2::sfrom(TinyFp::from_int(CURVE_B as int)),
            ),
        }
    }

    /// `Fp2` has zero divisors, so the slope's denominator may fail to be invertible;
    /// doubling is defined when it is.
    pub open spec fn double_defined(self) -> bool {
        match self {
            G2Point::Infinity => true,
            G2Point::Affine { x, y } => y == Fp2::szero() || Fp2::sfrom(TinyFp::from_int(2)).smul(
                y,
            ).sinverse() is Some,
        }
    }

    pub open spec fn sdouble(self) -> G2Point {
        match self {
            G2Point::Infinity => G2Point::Infinity,
            G2Point::Affine { x, y } => {
                if y == Fp2::szero() {
                    G2Point::Infinity
                } else {
                    let three = Fp2::sfrom(TinyFp::from_int(3));
                    let two = Fp2::sfrom(TinyFp::from_int(2));
                    let lambda = three.smul(x.smul(x)).smul(two.smul(y).sinverse().unwrap());
                    let x3 = lambda.smul(lambda).ssub(two.smul(x));
                    let y3 = lambda.smul(x.ssub(x3)).ssub(y);
                    G2Point::Affine { x: x3, y: y3 }
                }
            },
        }
    }

    /// Addition is defined when the chord's (or tangent's) denominator is invertible.
    pub open spec fn add_defined(self, o: G2Point) -> bool {
        match (self, o) {
            (G2Point::Affine { x: x1, y: y1 }, G2Point::Affine { x: x2, y: y2 }) => {
                if x1 == x2 {
                    y1 == y2 ==> self.double_defined()
                } else {
                    x2.ssub(x1).sinverse() is Some
                }
            },
            _ => true,
        }
    }

    pub open spec fn sadd(self, o: G2Point) -> G2Point {
        match (self, o) {
            (G2Point::Infinity, _) => o,
            (_, G2Point::Infinity) => self,
            (G2Point::Affine { x: x1, y: y1 }, G2Point::Affine { x: x2, y: y2 }) => {
                if x1 == x2 {
                    if y1 == y2 {
                        self.sdouble()
                    } else {
                        G2Point::Infinity
                    }
                } else {
                    let lambda = y2.ssub(y1).smul(x2.ssub(x1).sinverse().unwrap());
                    let x3 = lambda.smul(lambda).ssub(x1).ssub(x2);
                    let y3 = lambda.smul(x1.ssub(x3)).ssub(y1);
                    G2Point::Affine { x: x3, y: y3 }
                }
            },
        }
    }

    pub open spec fn sneg(self) -> G2Point {
        match self {
            G2Point::Infinity => G2Point::Infinity,
            G2Point::Affine { x, y } => G2Point::Affine { x, y: y.sneg() },
        }
    }

    pub open spec fn ssub(self, o: G2Point) -> G2Point {
        self.sadd(o.sneg())
    }

    /// Double-and-add over the low `k` bits of `n`, as for `G1Point`.
    pub open spec fn smul_steps(acc: G2Point, temp: G2Point, n: nat, k: nat) -> G2Point
        decreases k,
    {
        if k == 0 {
            acc
        } else {
            let acc2 = if n % 2 == 1 {
                acc.sadd(temp)
            } else {
                acc
            };
            G2Point::smul_steps(acc2, temp.sdouble(), n / 2, (k - 1) as nat)
        }
    }

    /// Every addition and doubling that `smul_steps` performs is defined.
    pub open spec fn mul_steps_defined(acc: G2Point, temp: G2Point, n: nat, k: nat) -> bool
        decreases k,
    {
        if k == 0 {
            true
        } else {
            let acc2 = if n % 2 == 1 {
                acc.sadd(temp)
            } else {
                acc
            };
            &&& (n % 2 == 1 ==> acc.add_defined(temp))
            &&& temp.double_defined()
            &&& G2Point::mul_steps_defined(acc2, temp.sdouble(), n / 2, (k - 1) as nat)
        }
    }

    pub open spec fn smul(self, n: nat) -> G2Point {
        G2Point::smul_steps(G2Point::Infinity, self, n, 64)
    }

    pub open spec fn mul_defined(self, n: nat) -> bool {
        G2Point::mul_steps_defined(G2Point::Infinity, self, n, 64)
    }

    /// All four coordinates are canonical residues (true of every value built at run time).
    pub open spec fn canon(self) -> bool {
        match self {
            G2Point::Infinity => true,
            G2Point::Affine { x, y } => x.c0.canon() && x.c1.canon() && y.c0.canon() && y.c1.canon(),
        }
    }

    /// The point at infinity is the identity: `P + O == P` and `O + P == P`.
    pub proof fn lemma_add_identity(a: G2Point)
        ensures
            a.sadd(G2Point::Infinity) == a,
            G2Point::Infinity.sadd(a) == a,
    {
    }

    /// Adding a point to itself is doubling it.
    pub proof fn lemma_add_self_is_double(a: G2Point)
        ensures
            a.sadd(a) == a.sdouble(),
    {
    }

    /// `P + (-P) == O`, and so `P - P == O`.
    pub proof fn lemma_add_inverse(a: G2Point)
        requires
            a.canon(),
        ensures
            a.sadd(a.sneg()) == G2Point::Infinity,
            a.ssub(a) == G2Point::Infinity,
    {
        if let G2Point::Affine { x, y } = a {
            if y.sneg() == y {
                lemma_neg_fixed(y.c0);
                lemma_neg_fixed(y.c1);
                TinyFp::lemma_val_eq(y.c0, TinyFp::szero());
                TinyFp::lemma_val_eq(y.c1, TinyFp::szero());
                assert(y == Fp2::szero());
            }
        }
    }

    /// Addition of canonical points is commutative where it is defined (the chord's
    /// denominator is invertible), and then defined in the other order too.
    pub proof fn lemma_add_commutative(a: G2Point, b: G2Point)
        requires
            a.canon(),
            b.canon(),
            a.add_defined(b),
        ensures
            b.add_defined(a),
            a.sadd(b) == b.sadd(a),
    {
        if let (G2Point::Affine { x: x1, y: y1 }, G2Point::Affine { x: x2, y: y2 }) = (a, b) {
            if x1 != x2 {
                lemma_g2_slope(x1, y1, x2, y2);
                let lambda = y2.ssub(y1).smul(x2.ssub(x1).sinverse().unwrap());
                lemma_g2_chord_sym(x1, y1, x2, y2, lambda);
            }
        }
    }

    pub(crate) proof fn lemma_smul_steps_zero(acc: G2Point, temp: G2Point, k: nat)
        ensures
            G2Point::smul_steps(acc, temp, 0, k) == acc,
        decreases k,
    {
        if k > 0 {
            Self::lemma_smul_steps_zero(acc, temp.sdouble(), (k - 1) as nat);
        }
    }

    /// Results of the group operations are canonical.
    pub proof fn lemma_ops_canon(a: G2Point, b: G2Point)
        requires
            a.canon(),
            b.canon(),
        ensures
            a.sdouble().canon(),
            a.sadd(b).canon(),
            a.sneg().canon(),
    {
    }

    /// Double-and-add agrees with repeated addition on the first multiples:
    /// `0 * P == O`, `1 * P == P`, `2 * P == P + P`, and `3 * P == (P + P) + P` where the
    /// addition that it performs is defined.
    pub proof fn lemma_smul_small(a: G2Point)
        requires
            a.canon(),
        ensures
            a.smul(0) == G2Point::Infinity,
            a.smul(1) == a,
            a.smul(2) == a.sadd(a),
            a.smul(3) == a.sadd(a.sadd(a)),
            a.add_defined(a.sdouble()) ==> a.smul(3) == a.sadd(a).sadd(a),
    {
        Self::lemma_smul_steps_zero(G2Point::Infinity, a, 64);
        let d = a.sdouble();
        Self::lemma_smul_steps_zero(a, d, 63);
        Self::lemma_smul_steps_zero(d, d.sdouble(), 62);
        Self::lemma_smul_steps_zero(a.sadd(d), d.sdouble(), 62);
        assert(G2Point::smul_steps(G2Point::Infinity, a, 2, 64) == G2Point::smul_steps(
            G2Point::Infinity,
            d,
            1,
            63,
        ));
        assert(G2Point::smul_steps(G2Point::Infinity, d, 1, 63) == G2Point::smul_steps(
            d,
            d.sdouble(),
            0,
            62,
        ));
        assert(G2Point::smul_steps(G2Point::Infinity, a, 3, 64) == G2Point::smul_steps(a, d, 1, 63));
        assert(G2Point::smul_steps(a, d, 1, 63) == G2Point::smul_steps(a.sadd(d), d.sdouble(), 0, 62));
        Self::lemma_ops_canon(a, a);
        if a.add_defined(d) {
            Self::lemma_add_commutative(a, d);
        }
    }

    pub fn is_on_curve(&self) -> (r: bool)
        ensures
            r == self.on_curve(),
    {
        match self {
            G2Point::Infinity => true,
            G2Point::Affine { x, y } => {
                let lhs = y.square();
                let three = Fp2::new(TinyFp::from_u64(CURVE_B), TinyFp::zero());
                let rhs = x.square().mul(x).add(&three);
                lhs == rhs
            },
        }
    }

    /// The point `(0 + 3i, 9 + 49i)`.
    pub open spec fn sgenerator() -> G2Point {
        G2Point::Affine {
            x: Fp2 { c0: TinyFp::from_int(0), c1: TinyFp::from_int(3) },
            y: Fp2 { c0: TinyFp::from_int(9), c1: TinyFp::from_int(49) },
        }
    }

    /// The point `(0 + 3i, 9 + 49i)`.
    pub fn generator() -> (r: G2Point)
        ensures
            r == G2Point::sgenerator(),
    {
        G2Point::Affine {
            x: Fp2::new(TinyFp::from_u64(0), TinyFp::from_u64(3)),
            y: Fp2::new(TinyFp::from_u64(9), TinyFp::from_u64(49)),
        }
    }

    pub fn add(&self, other: &G2Point) -> (r: G2Point)
        requires
            self.add_defined(*other),
        ensures
            r == self.sadd(*other),
    {
        match (self, other) {
            (G2Point::Infinity, _) => *other,
            (_, G2Point::Infinity) => *self,
            (G2Point::Affine { x: x1, y: y1 }, G2Point::Affine { x: x2, y: y2 }) => {
                if x1 == x2 {
                    if y1 == y2 {
                        return self.double();
                    } else {
                        return G2Point::Infinity;
                    }
                }
                // standard point addition
                let dy = y2.sub(y1);
                let dx_inv = x2.sub(x1).inverse().unwrap();
                let lambda = dy.mul(&dx_inv);
                let x3 = lambda.square().sub(x1).sub(x2);
                let y3 = lambda.mul(&x1.sub(&x3)).sub(y1);
                G2Point::Affine { x: x3, y: y3 }
            },
        }
    }

    /// Point doubling.
    pub fn double(&self) -> (r: G2Point)
        requires
            self.double_defined(),
        ensures
            r == self.sdouble(),
    {
        match self {
            G2Point::Infinity => G2Point::Infinity,
            G2Point::Affine { x, y } => {
                if *y == Fp2::zero() {
                    return G2Point::Infinity;
                }
                let three = Fp2::new(TinyFp::from_u64(3), TinyFp::zero());
                let two = Fp2::new(TinyFp::from_u64(2), TinyFp::zero());
                let numerator = three.mul(&x.square());
                let denominator = two.mul(y);
                let lambda = numerator.mul(&denominator.inverse().unwrap());
                let x3 = lambda.square().sub(&two.mul(x));
                let y3 = lambda.mul(&x.sub(&x3)).sub(y);
                G2Point::Affine { x: x3, y: y3 }
            },
        }
    }

    fn mul_u64(&self, n: u64) -> (r: G2Point)
        requires
            self.mul_defined(n as nat),
        ensures
            r == self.smul(n as nat),
    {
        let mut result = G2Point::Infinity;
        let mut temp = *self;
        let mut bits = n;
        let mut i: u64 = 0;
        while i < 64
            invariant
                i <= 64,
                G2Point::smul_steps(result, temp, bits as nat, (64 - i) as nat) == self.smul(
                    n as nat,
                ),
                G2Point::mul_steps_defined(result, temp, bits as nat, (64 - i) as nat),
            decreases 64 - i,
        {
            if bits % 2 == 1 {
                result = result.add(&temp);
            }
            temp = temp.double();
            bits = bits / 2;
            i = i + 1;
        }
        result
    }

    /// `scala * self` by double-and-add over the bits of the residue of `scala`.
    pub fn scala_mul(&self, scala: TinyFp) -> (r: G2Point)
        requires
            self.mul_defined(scala.val()),
        ensures
            r == self.smul(scala.val()),
    {
        self.mul_u64(scala.value())
    }

    /// Multiplication by a scalar-field element, through its canonical residue.
    pub fn scalar_mul_fr(&self, s: ScalarField) -> (r: G2Point)
        requires
            self.mul_defined(s.val()),
        ensures
            r == self.smul(s.val()),
    {
        self.mul_u64(s.value())
    }

    /// Point negation `-(x, y) = (x, -y)`.
    pub fn negate(&self) -> (r: G2Point)
        ensures
            r == self.sneg(),
    {
        match self {
            G2Point::Infinity => G2Point::Infinity,
            G2Point::Affine { x, y } => G2Point::Affine { x: *x, y: y.neg() },
        }
    }

    pub fn sub(&self, other: &G2Point) -> (r: G2Point)
        requires
            self.add_defined(other.sneg()),
        ensures
            r == self.ssub(*other),
    {
        self.add(&other.negate())
    }
}

} // verus!
