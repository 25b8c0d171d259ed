//! The reduced Tate pairing of order 17 on the curve `y^2 = x^3 + 3` over `TinyFp`.
//!
//! `Fp2 = Fp[i] / (i^2 + 1)` is not a field for p = 101 (`10^2 = -1`), and its units have
//! no element of order 17, so the target group lives in the field
//! `GtField = Fp[w] / (w^2 + w + 1)` (irreducible since p = 2 mod 3).  A `G2Point` is sent
//! to the curve over `TinyFp` by the ring map `i -> 10`, and from there into the curve over
//! `GtField` by the distortion map `(x, y) -> (w * x, y)`; the Miller loop runs on `G1Point`
//! and evaluates its lines at that image.
use crate::field::{TinyFp, PRIME, R};
use crate::tiny_field::{G1Point, G2Point};
use vstd::arithmetic::div_mod::*;
use vstd::prelude::*;

verus! {

broadcast use TinyFp::group_tiny_field;

/// `c0 + c1 * w` with `w^2 = -w - 1`.
#[derive(Clone, Copy, Debug, PartialEq, Eq, Structural)]
pub struct GtField {
    pub c0: TinyFp,
    pub c1: TinyFp,
}

/// A point of the curve over `GtField` (affine coordinates).
#[derive(Clone, Copy, Debug, PartialEq, Eq, Structural)]
pub struct DistortedPoint {
    pub x: GtField,
    pub y: GtField,
}

impl GtField {
    pub open spec fn sone() -> GtField {
        GtField { c0: TinyFp::sone(), c1: TinyFp::szero() }
    }

    pub open spec fn sfrom(x: TinyFp) -> GtField {
        GtField { c0: x, c1: TinyFp::szero() }
    }

    pub open spec fn ssub(self, o: GtField) -> GtField {
        GtField { c0: self.c0.ssub(o.c0), c1: self.c1.ssub(o.c1) }
    }

    /// `(a + bw)(c + dw) = (ac - bd) + (ad + bc - bd)w`.
    pub open spec fn smul(self, o: GtField) -> GtField {
        GtField {
            c0: self.c0.smul(o.c0).ssub(self.c1.smul(o.c1)),
            c1: self.c0.smul(o.c1).sadd(self.c1.smul(o.c0)).ssub(self.c1.smul(o.c1)),
        }
    }

    /// `a^2 - ab + b^2 = (a + bw)(a + bw^2)`.
    pub open spec fn snorm(self) -> TinyFp {
        self.c0.smul(self.c0).ssub(self.c0.smul(self.c1)).sadd(self.c1.smul(self.c1))
    }

    /// `(a + bw)^-1 = ((a - b) - bw) / (a^2 - ab + b^2)`; `None` for zero.
    pub open spec fn sinverse(self) -> Option<GtField> {
        if self.snorm().val() == 0 {
            None
        } else {
            let n = self.snorm().sinv();
            Some(GtField { c0: self.c0.ssub(self.c1).smul(n), c1: self.c1.sneg().smul(n) })
        }
    }

    pub fn one() -> (r: GtField)
        ensures
            r == GtField::sone(),
    {
        GtField { c0: TinyFp::one(), c1: TinyFp::zero() }
    }

    pub fn from_base(x: TinyFp) -> (r: GtField)
        ensures
            r == GtField::sfrom(x),
    {
        GtField { c0: x, c1: TinyFp::zero() }
    }

    pub fn sub(&self, other: &GtField) -> (r: GtField)
        ensures
            r == self.ssub(*other),
    {
        GtField { c0: self.c0.sub(&other.c0), c1: self.c1.sub(&other.c1) }
    }

    pub fn mul(&self, other: &GtField) -> (r: GtField)
        ensures
            r == self.smul(*other),
    {
        let ac = self.c0.mul(&other.c0);
        let bd = self.c1.mul(&other.c1);
        let ad = self.c0.mul(&other.c1);
        let bc = self.c1.mul(&other.c0);
        GtField { c0: ac.sub(&bd), c1: ad.add(&bc).sub(&bd) }
    }

    pub fn square(&self) -> (r: GtField)
        ensures
            r == self.smul(*self),
    {
        self.mul(self)
    }

    pub fn inverse(&self) -> (r: Option<GtField>)
        ensures
            r == self.sinverse(),
    {
        let norm = self.c0.mul(&self.c0).sub(&self.c0.mul(&self.c1)).add(&self.c1.mul(&self.c1));
        if norm.is_zero() {
            return None;
        }
        let n = norm.inverse().unwrap();
        Some(GtField { c0: self.c0.sub(&self.c1).mul(&n), c1: self.c1.neg().mul(&n) })
    }
}

/// The target group: the subgroup of order 17 of the units of `GtField`.
#[derive(Clone, Copy, Debug, PartialEq, Eq, Structural)]
pub struct GT(pub GtField);

impl GT {
    pub open spec fn sone() -> GT {
        GT(GtField::sone())
    }

    pub open spec fn smul(self, o: GT) -> GT {
        GT(self.0.smul(o.0))
    }

    /// Square-and-multiply over the bits of `e`, from the lowest.
    pub open spec fn spow_steps(acc: GT, cur: GT, e: nat) -> GT
        decreases e,
    {
        if e == 0 {
            acc
        } else {
            let acc2 = if e % 2 == 1 {
                acc.smul(cur)
            } else {
                acc
            };
            GT::spow_steps(acc2, cur.smul(cur), e / 2)
        }
    }

    pub open spec fn spow(self, e: nat) -> GT {
        GT::spow_steps(GT::sone(), self, e)
    }

    pub fn new(inner: GtField) -> (r: GT)
        ensures
            r == GT(inner),
    {
        GT(inner)
    }

    pub fn one() -> (r: GT)
        ensures
            r == GT::sone(),
    {
        GT(GtField::one())
    }

    pub fn mul(&self, other: &GT) -> (r: GT)
        ensures
            r == self.smul(*other),
    {
        GT(self.0.mul(&other.0))
    }

    pub fn pow(&self, exp: u64) -> (r: GT)
        ensures
            r == self.spow(exp as nat),
    {
        let mut e = exp;
        let mut acc = GT::one();
        let mut cur = *self;
        while e > 0
            invariant
                GT::spow_steps(acc, cur, e as nat) == self.spow(exp as nat),
            decreases e,
        {
            if e % 2 == 1 {
                acc = acc.mul(&cur);
            }
            cur = cur.mul(&cur);
            e = e / 2;
        }
        acc
    }
}


/// The element of `GtField` with components the images of the integers `a` and `b`.
pub open spec fn gt_of(a: int, b: int) -> GtField {
    GtField { c0: TinyFp::from_int(a), c1: TinyFp::from_int(b) }
}

impl GtField {
    /// Both components are canonical residues, as every value the executable code holds.
    pub open spec fn canon(self) -> bool {
        self.c0.canon() && self.c1.canon()
    }
}

/// The product on images of integer pairs.
pub(crate) proof fn lemma_gt_mul_ints(a: int, b: int, c: int, d: int)
    ensures
        gt_of(a, b).smul(gt_of(c, d)) == gt_of(a * c - b * d, a * d + b * c - b * d),
{
    TinyFp::lemma_from_int_ops(a, c);
    TinyFp::lemma_from_int_ops(b, d);
    TinyFp::lemma_from_int_ops(a, d);
    TinyFp::lemma_from_int_ops(b, c);
    TinyFp::lemma_from_int_ops(a * c, b * d);
    TinyFp::lemma_from_int_ops(a * d, b * c);
    TinyFp::lemma_from_int_ops(a * d + b * c, b * d);
}

/// A canonical element is the image of its residues.
proof fn lemma_gt_canon(x: GtField)
    requires
        x.canon(),
    ensures
        x == gt_of(x.c0.val() as int, x.c1.val() as int),
{
    TinyFp::lemma_from_val(x.c0);
    TinyFp::lemma_from_val(x.c1);
}

/// The two products of three pairs agree as integer polynomials.
proof fn lemma_assoc_poly(a: int, b: int, c: int, d: int, e: int, f: int)
    ensures
        ({
            let (p, q) = (a * c - b * d, a * d + b * c - b * d);
            let (r, s) = (c * e - d * f, c * f + d * e - d * f);
            p * e - q * f == a * r - b * s && p * f + q * e - q * f == a * s + b * r - b * s
        }),
{
    let (p, q) = (a * c - b * d, a * d + b * c - b * d);
    let (r, s) = (c * e - d * f, c * f + d * e - d * f);
    let (ace, bde, adf, bcf, bdf, acf, ade, bce) = (
        a * c * e,
        b * d * e,
        a * d * f,
        b * c * f,
        b * d * f,
        a * c * f,
        a * d * e,
        b * c * e,
    );
    assert(p * e == ace - bde) by (nonlinear_arith)
        requires p == a * c - b * d, ace == a * c * e, bde == b * d * e;
    assert(q * f == adf + bcf - bdf) by (nonlinear_arith)
        requires q == a * d + b * c - b * d, adf == a * d * f, bcf == b * c * f, bdf == b * d * f;
    assert(a * r == ace - adf) by (nonlinear_arith)
        requires r == c * e - d * f, ace == a * c * e, adf == a * d * f;
    assert(b * s == bcf + bde - bdf) by (nonlinear_arith)
        requires s == c * f + d * e - d * f, bcf == b * c * f, bde == b * d * e, bdf == b * d * f;
    assert(p * f == acf - bdf) by (nonlinear_arith)
        requires p == a * c - b * d, acf == a * c * f, bdf == b * d * f;
    assert(q * e == ade + bce - bde) by (nonlinear_arith)
        requires q == a * d + b * c - b * d, ade == a * d * e, bce == b * c * e, bde == b * d * e;
    assert(a * s == acf + ade - adf) by (nonlinear_arith)
        requires s == c * f + d * e - d * f, acf == a * c * f, ade == a * d * e, adf == a * d * f;
    assert(b * r == bce - bdf) by (nonlinear_arith)
        requires r == c * e - d * f, bce == b * c * e, bdf == b * d * f;
}

/// Multiplication in `GtField` is commutative and associative, one is its identity, and
/// every product is canonical.
pub proof fn lemma_gt_field_mul(x: GtField, y: GtField, z: GtField)
    requires
        x.canon(),
        y.canon(),
        z.canon(),
    ensures
        x.smul(y) == y.smul(x),
        x.smul(y).smul(z) == x.smul(y.smul(z)),
        x.smul(GtField::sone()) == x,
        GtField::sone().smul(x) == x,
        x.smul(y).canon(),
        GtField::sone().canon(),
{
    lemma_gt_canon(x);
    lemma_gt_canon(y);
    lemma_gt_canon(z);
    let (a, b) = (x.c0.val() as int, x.c1.val() as int);
    let (c, d) = (y.c0.val() as int, y.c1.val() as int);
    let (e, f) = (z.c0.val() as int, z.c1.val() as int);
    lemma_gt_mul_ints(a, b, c, d);
    lemma_gt_mul_ints(c, d, a, b);
    assert(a * c - b * d == c * a - d * b && a * d + b * c - b * d == c * b + d * a - d * b)
        by (nonlinear_arith);
    let (p, q) = (a * c - b * d, a * d + b * c - b * d);
    let (r, s) = (c * e - d * f, c * f + d * e - d * f);
    lemma_gt_mul_ints(c, d, e, f);
    lemma_gt_mul_ints(p, q, e, f);
    lemma_gt_mul_ints(a, b, r, s);
    lemma_assoc_poly(a, b, c, d, e, f);
    lemma_gt_mul_ints(a, b, 1, 0);
    lemma_gt_mul_ints(1, 0, a, b);
    assert(a * 1 - b * 0 == a && a * 0 + b * 1 - b * 0 == b) by (nonlinear_arith);
    assert(1 * a - 0 * b == a && 1 * b + 0 * a - 0 * b == b) by (nonlinear_arith);
    assert(GtField::sone() == gt_of(1, 0));
}

impl GT {
    /// `x^n` as the product of `n` factors `x`.
    pub open spec fn spow_rep(self, n: nat) -> GT
        decreases n,
    {
        if n == 0 {
            GT::sone()
        } else {
            self.smul(self.spow_rep((n - 1) as nat))
        }
    }

    proof fn lemma_rep_canon(x: GT, n: nat)
        ensures
            x.spow_rep(n).0.canon(),
    {
        if n > 0 {
            let y = x.spow_rep((n - 1) as nat);
            assert(x.spow_rep(n) == x.smul(y));
        }
    }

    /// `x^(a + b) == x^a * x^b` for the repeated product.
    proof fn lemma_rep_add(x: GT, a: nat, b: nat)
        requires
            x.0.canon(),
        ensures
            x.spow_rep(a + b) == x.spow_rep(a).smul(x.spow_rep(b)),
        decreases a,
    {
        GT::lemma_rep_canon(x, b);
        if a == 0 {
            lemma_gt_field_mul(x.spow_rep(b).0, x.0, x.0);
            assert(a + b == b);
        } else {
            let a1 = (a - 1) as nat;
            GT::lemma_rep_add(x, a1, b);
            GT::lemma_rep_canon(x, a1);
            lemma_gt_field_mul(x.0, x.spow_rep(a1).0, x.spow_rep(b).0);
            assert((a + b - 1) as nat == a1 + b);
            assert(x.spow_rep(a + b) == x.smul(x.spow_rep(a1 + b)));
        }
    }

    /// `x^(a * b) == (x^a)^b` for the repeated product.
    proof fn lemma_rep_mul(x: GT, a: nat, b: nat)
        requires
            x.0.canon(),
        ensures
            x.spow_rep(a * b) == x.spow_rep(a).spow_rep(b),
        decreases b,
    {
        if b == 0 {
            assert(a * b == 0) by (nonlinear_arith)
                requires
                    b == 0,
            ;
        } else {
            let b1 = (b - 1) as nat;
            GT::lemma_rep_mul(x, a, b1);
            assert(a * b == a + a * b1) by (nonlinear_arith)
                requires
                    b1 == b - 1,
            ;
            GT::lemma_rep_add(x, a, a * b1);
        }
    }

    /// `(x * x)^h == x^(2h)` and `x^(2h + 1) == x * x^(2h)`.
    proof fn lemma_rep_square(x: GT, h: nat)
        requires
            x.0.canon(),
        ensures
            x.smul(x).spow_rep(h) == x.spow_rep(2 * h),
            x.spow_rep(2 * h + 1) == x.smul(x.spow_rep(2 * h)),
            x.spow_rep(2 * h).0.canon(),
    {
        lemma_gt_field_mul(x.0, x.0, x.0);
        assert(x.spow_rep(0) == GT::sone());
        assert(x.spow_rep(1) == x.smul(x.spow_rep(0)));
        assert(x.spow_rep(2) == x.smul(x.spow_rep(1)));
        GT::lemma_rep_mul(x, 2, h);
        GT::lemma_rep_canon(x, 2 * h);
        assert((2 * h + 1 - 1) as nat == 2 * h);
    }

    /// Square-and-multiply from `acc` and `cur` multiplies `acc` by `cur^e`.
    proof fn lemma_steps(acc: GT, cur: GT, e: nat)
        requires
            acc.0.canon(),
            cur.0.canon(),
        ensures
            GT::spow_steps(acc, cur, e) == acc.smul(cur.spow_rep(e)),
        decreases e,
    {
        lemma_gt_field_mul(acc.0, cur.0, cur.0);
        if e == 0 {
            assert(cur.spow_rep(0) == GT::sone());
        } else {
            let h = e / 2;
            let acc2 = if e % 2 == 1 {
                acc.smul(cur)
            } else {
                acc
            };
            GT::lemma_steps(acc2, cur.smul(cur), h);
            GT::lemma_rep_square(cur, h);
            if e % 2 == 1 {
                assert(e == 2 * h + 1);
                lemma_gt_field_mul(acc.0, cur.0, cur.spow_rep(2 * h).0);
            } else {
                assert(e == 2 * h);
            }
        }
    }

    /// A power of a canonical element is canonical.
    pub proof fn lemma_pow_canon(x: GT, n: nat)
        requires
            x.0.canon(),
        ensures
            x.spow(n).0.canon(),
    {
        GT::lemma_steps(GT::sone(), x, n);
        GT::lemma_rep_canon(x, n);
        lemma_gt_field_mul(x.0, x.0, x.0);
        lemma_gt_field_mul(GtField::sone(), x.spow_rep(n).0, x.0);
    }

    /// The laws of powers in the target group: `x^0 == 1`, `x^1 == x`,
    /// `x^(a + b) == x^a * x^b` and `x^(a * b) == (x^a)^b`.
    pub proof fn lemma_pow_laws(x: GT, a: nat, b: nat)
        requires
            x.0.canon(),
        ensures
            x.spow(0) == GT::sone(),
            x.spow(1) == x,
            x.spow(a + b) == x.spow(a).smul(x.spow(b)),
            x.spow(a * b) == x.spow(a).spow(b),
    {
        lemma_gt_field_mul(x.0, x.0, x.0);
        GT::lemma_steps(GT::sone(), x, 0);
        GT::lemma_steps(GT::sone(), x, 1);
        GT::lemma_steps(GT::sone(), x, a);
        GT::lemma_steps(GT::sone(), x, b);
        GT::lemma_steps(GT::sone(), x, a + b);
        GT::lemma_steps(GT::sone(), x, a * b);
        GT::lemma_rep_canon(x, a);
        GT::lemma_rep_canon(x, b);
        GT::lemma_rep_canon(x, a + b);
        GT::lemma_rep_canon(x, a * b);
        let xa = x.spow_rep(a);
        GT::lemma_steps(GT::sone(), xa, b);
        GT::lemma_rep_canon(xa, b);
        lemma_gt_field_mul(x.spow_rep(a).0, x.0, x.0);
        lemma_gt_field_mul(x.spow_rep(b).0, x.0, x.0);
        lemma_gt_field_mul(x.spow_rep(a + b).0, x.0, x.0);
        lemma_gt_field_mul(x.spow_rep(a * b).0, x.0, x.0);
        lemma_gt_field_mul(xa.spow_rep(b).0, x.0, x.0);
        assert(x.spow_rep(0) == GT::sone());
        assert(x.spow_rep(1) == x.smul(x.spow_rep(0)));
        GT::lemma_rep_add(x, a, b);
        GT::lemma_rep_mul(x, a, b);
    }
}

/// The square root of -1 in `TinyFp` that the ring map `Fp2 -> TinyFp` sends `i` to.
pub const SQRT_MINUS_ONE: u64 = 10;

/// The point of the curve over `TinyFp` that `q` is sent to by `i -> 10`.
pub open spec fn sproject(q: G2Point) -> G1Point {
    match q {
        G2Point::Infinity => G1Point::Infinity,
        G2Point::Affine { x, y } => {
            let s = TinyFp::from_int(SQRT_MINUS_ONE as int);
            G1Point::Affine { x: x.c0.sadd(x.c1.smul(s)), y: y.c0.sadd(y.c1.smul(s)) }
        },
    }
}

/// The distortion map `(x, y) -> (w * x, y)` applied to the projection of an affine `q`.
pub open spec fn sdistort(q: G2Point) -> DistortedPoint {
    distort_point(sproject(q))
}

/// The distortion map `(x, y) -> (w * x, y)` on an affine point of the curve over `TinyFp`.
pub open spec fn distort_point(p: G1Point) -> DistortedPoint {
    match p {
        G1Point::Affine { x, y } => DistortedPoint {
            x: GtField { c0: TinyFp::szero(), c1: x },
            y: GtField::sfrom(y),
        },
        G1Point::Infinity => DistortedPoint { x: GtField::sfrom(TinyFp::szero()), y: GtField::sfrom(TinyFp::szero()) },
    }
}

pub fn project(q: &G2Point) -> (r: G1Point)
    ensures
        r == sproject(*q),
{
    match q {
        G2Point::Infinity => G1Point::Infinity,
        G2Point::Affine { x, y } => {
            let s = TinyFp::from_u64(SQRT_MINUS_ONE);
            G1Point::Affine { x: x.c0.add(&x.c1.mul(&s)), y: y.c0.add(&y.c1.mul(&s)) }
        },
    }
}

pub fn distort(q: &G2Point) -> (r: DistortedPoint)
    ensures
        r == sdistort(*q),
{
    match project(q) {
        G1Point::Affine { x, y } => DistortedPoint {
            x: GtField { c0: TinyFp::zero(), c1: x },
            y: GtField::from_base(y),
        },
        G1Point::Infinity => DistortedPoint { x: GtField::from_base(TinyFp::zero()), y: GtField::from_base(TinyFp::zero()) },
    }
}

/// The slope of the line through `(x1, y1)` and `(x2, y2)` (the tangent when the points
/// are equal) and the coordinates of their sum.
pub open spec fn sslope_step(x1: TinyFp, y1: TinyFp, x2: TinyFp, y2: TinyFp) -> (TinyFp, TinyFp, TinyFp) {
    let three = TinyFp::from_int(3);
    let two = TinyFp::from_int(2);
    if x1 == x2 {
        let lambda = three.smul(x1).smul(x1).smul(two.smul(y1).sinv());
        let x3 = lambda.smul(lambda).ssub(two.smul(x1));
        (lambda, x3, lambda.smul(x1.ssub(x3)).ssub(y1))
    } else {
        let lambda = y2.ssub(y1).smul(x2.ssub(x1).sinv());
        let x3 = lambda.smul(lambda).ssub(x1).ssub(x2);
        (lambda, x3, lambda.smul(x1.ssub(x3)).ssub(y1))
    }
}

/// One step of Miller's algorithm: the line through `r` and `s` (the tangent when they
/// are equal) divided by the vertical line through `r + s`, evaluated at `q`, together with
/// `r + s`.  `None` where the computation would divide by zero or meets the point at
/// infinity.
pub open spec fn sline_eval(r: G1Point, s: G1Point, q: DistortedPoint) -> Option<(GtField, G1Point)> {
    match (r, s) {
        (G1Point::Affine { x: x1, y: y1 }, G1Point::Affine { x: x2, y: y2 }) => {
            let xq = q.x;
            let yq = q.y;
            if x1 == x2 && y1.sadd(y2).val() == 0 {
                Some((xq.ssub(GtField::sfrom(x1)), G1Point::Infinity))
            } else if x1 == x2 && y1 != y2 {
                None
            } else {
                let (lambda, x3, y3) = sslope_step(x1, y1, x2, y2);
                let line = yq.ssub(GtField::sfrom(y1)).ssub(
                    GtField::sfrom(lambda).smul(xq.ssub(GtField::sfrom(x1))),
                );
                match xq.ssub(GtField::sfrom(x3)).sinverse() {
                    Some(v_inv) => Some((line.smul(v_inv), G1Point::Affine { x: x3, y: y3 })),
                    None => None,
                }
            }
        },
        _ => None,
    }
}

/// The point that a step of Miller's algorithm carries on is the group sum: wherever
/// `sline_eval(r, s, q)` is defined on canonical points, its point is `r + s`.
pub proof fn lemma_line_point(r: G1Point, s: G1Point, q: DistortedPoint)
    requires
        r.canon(),
        s.canon(),
    ensures
        sline_eval(r, s, q) is Some ==> sline_eval(r, s, q).unwrap().1 == r.sadd(s),
{
    match (r, s) {
        (G1Point::Affine { x: x1, y: y1 }, G1Point::Affine { x: x2, y: y2 }) => {
            if x1 == x2 && y1 == y2 && y1.sadd(y2).val() == 0 {
                assert((y1.val() + y1.val()) % (PRIME as nat) == 0);
                assert(y1.val() == 0);
            }
        },
        _ => {},
    }
}

/// The bits of `n`, least significant first.
pub open spec fn bits_lsb(n: nat) -> Seq<u8>
    decreases n,
{
    if n == 0 {
        seq![]
    } else {
        seq![(n % 2) as u8].add(bits_lsb(n / 2))
    }
}

/// Miller's loop over the bits `bits[i - 1], ..., bits[0]`, from accumulator `f` and
/// running point `r`.
pub open spec fn smiller_steps(
    p: G1Point,
    q: DistortedPoint,
    f: GtField,
    r: G1Point,
    bits: Seq<u8>,
    i: nat,
) -> Option<GtField>
    decreases i,
{
    if i == 0 {
        Some(f)
    } else {
        match sline_eval(r, r, q) {
            None => None,
            Some((g, r2)) => {
                let f2 = f.smul(f).smul(g);
                if bits[i - 1] == 1 {
                    match sline_eval(r2, p, q) {
                        None => None,
                        Some((g2, r3)) => smiller_steps(p, q, f2.smul(g2), r3, bits, (i - 1) as nat),
                    }
                } else {
                    smiller_steps(p, q, f2, r2, bits, (i - 1) as nat)
                }
            },
        }
    }
}

/// The Miller function of order 17 at `p`, evaluated at `q`; `None` where undefined.
pub open spec fn smiller_loop(p: G1Point, q: DistortedPoint) -> Option<GtField> {
    smiller_steps(p, q, GtField::sone(), p, bits_lsb(R as nat), (bits_lsb(R as nat).len() - 1) as nat)
}

/// The final exponent `(p^2 - 1) / 17`.
pub open spec fn final_exponent() -> nat {
    ((PRIME * PRIME - 1) / (R as int)) as nat
}

/// The pairing is defined: a point at infinity, or a Miller loop that never divides by
/// zero nor meets the point at infinity.
pub open spec fn pairing_defined(p: G1Point, q: G2Point) -> bool {
    p == G1Point::Infinity || q == G2Point::Infinity || smiller_loop(p, sdistort(q)) is Some
}

/// `e(P, Q)`: one for a point at infinity, else the Miller function raised to the final
/// exponent.
pub open spec fn spairing(p: G1Point, q: G2Point) -> GT {
    if p == G1Point::Infinity || q == G2Point::Infinity {
        GT::sone()
    } else {
        GT(smiller_loop(p, sdistort(q)).unwrap()).spow(final_exponent())
    }
}

/// The pairing with the point at infinity on either side is one: `e(O, Q) == e(P, O) == 1`.
pub proof fn lemma_pairing_with_infinity(p: G1Point, q: G2Point)
    ensures
        pairing_defined(G1Point::Infinity, q),
        pairing_defined(p, G2Point::Infinity),
        spairing(G1Point::Infinity, q) == GT::sone(),
        spairing(p, G2Point::Infinity) == GT::sone(),
{
}

fn slope_step(x1: TinyFp, y1: TinyFp, x2: TinyFp, y2: TinyFp) -> (res: (TinyFp, TinyFp, TinyFp))
    requires
        !(x1 == x2 && y1.sadd(y2).val() == 0),
        !(x1 == x2 && y1 != y2),
    ensures
        res == sslope_step(x1, y1, x2, y2),
{
    proof {
        use_type_invariant(x1);
        use_type_invariant(x2);
        use_type_invariant(y1);
        use_type_invariant(y2);
        if x1.val() == x2.val() {
            TinyFp::lemma_val_eq(x1, x2);
        }
    }
    let three = TinyFp::from_u64(3);
    let two = TinyFp::from_u64(2);
    if x1 == x2 {
        // y1 == y2 here and y1 + y2 != 0, so y1 != 0
        let two_y1 = two.mul(&y1);
        assert(two_y1.val() != 0);
        let lam = three.mul(&x1).mul(&x1).mul(&two_y1.inverse().unwrap());
        let x3 = lam.mul(&lam).sub(&two.mul(&x1));
        let y3 = lam.mul(&x1.sub(&x3)).sub(&y1);
        (lam, x3, y3)
    } else {
        let dx = x2.sub(&x1);
        assert(dx.val() != 0);
        let lam = y2.sub(&y1).mul(&dx.inverse().unwrap());
        let x3 = lam.mul(&lam).sub(&x1).sub(&x2);
        let y3 = lam.mul(&x1.sub(&x3)).sub(&y1);
        (lam, x3, y3)
    }
}

fn line_eval(r: &G1Point, s: &G1Point, q: &DistortedPoint) -> (res: (GtField, G1Point))
    requires
        sline_eval(*r, *s, *q) is Some,
    ensures
        sline_eval(*r, *s, *q) == Some(res),
{
    let (x1, y1) = match r {
        G1Point::Affine { x, y } => (*x, *y),
        G1Point::Infinity => {
            proof {
                assert(false);
            }
            (TinyFp::zero(), TinyFp::zero())
        },
    };
    let (x2, y2) = match s {
        G1Point::Affine { x, y } => (*x, *y),
        G1Point::Infinity => {
            proof {
                assert(false);
            }
            (TinyFp::zero(), TinyFp::zero())
        },
    };
    let xq = q.x;
    let yq = q.y;

    let x1_ext = GtField::from_base(x1);
    let y1_ext = GtField::from_base(y1);
    let xq_minus_x1 = xq.sub(&x1_ext);
    let yq_minus_y1 = yq.sub(&y1_ext);

    if x1 == x2 && y1.add(&y2).is_zero() {
        let g = xq.sub(&GtField::from_base(x1));
        return (g, G1Point::Infinity);
    }
    let (lambda, x3, y3) = slope_step(x1, y1, x2, y2);

    let lam_ext = GtField::from_base(lambda);
    let line = yq_minus_y1.sub(&lam_ext.mul(&xq_minus_x1));
    let v = xq.sub(&GtField::from_base(x3));
    let g = line.mul(&v.inverse().unwrap());
    (g, G1Point::Affine { x: x3, y: y3 })
}

fn miller_loop(p: &G1Point, q: &DistortedPoint) -> (f: GtField)
    requires
        smiller_loop(*p, *q) is Some,
    ensures
        smiller_loop(*p, *q) == Some(f),
{
    let mut f = GtField::one();
    let mut r = *p;

    let mut bits: Vec<u8> = Vec::new();
    let mut n: u64 = R;
    while n > 0
        invariant
            bits@.add(bits_lsb(n as nat)) == bits_lsb(R as nat),
        decreases n,
    {
        proof {
            assert(bits_lsb(n as nat) == seq![(n % 2) as u8].add(bits_lsb((n / 2) as nat)));
            assert(bits@.push((n % 2) as u8).add(bits_lsb((n / 2) as nat)) == bits@.add(
                bits_lsb(n as nat),
            ));
        }
        bits.push((n % 2) as u8);
        n = n / 2;
    }
    proof {
        assert(bits@ == bits_lsb(R as nat));
        reveal_with_fuel(bits_lsb, 6);
        assert(bits_lsb(R as nat).len() == 5);
    }
    let mut i: usize = bits.len() - 1;
    while i > 0
        invariant
            i < bits.len(),
            bits@ == bits_lsb(R as nat),
            smiller_steps(*p, *q, f, r, bits@, i as nat) == smiller_loop(*p, *q),
            smiller_loop(*p, *q) is Some,
        decreases i,
    {
        i = i - 1;
        let (g, r2) = line_eval(&r, &r, q);
        f = f.square().mul(&g);
        r = r2;
        if bits[i] == 1 {
            let (g2, r3) = line_eval(&r, p, q);
            f = f.mul(&g2);
            r = r3;
        }
    }
    f
}

/// Reduced Tate pairing on the supersingular toy curve, through the distortion map.
/// This is only for educational use and is NOT cryptographically secure.
pub fn pairing(p: &G1Point, q: &G2Point) -> (r: GT)
    requires
        pairing_defined(*p, *q),
    ensures
        r == spairing(*p, *q),
{
    match (p, q) {
        (G1Point::Infinity, _) | (_, G2Point::Infinity) => GT::one(),
        _ => {
            let f = miller_loop(p, &distort(q));
            let pp = PRIME as u128;
            let exp = ((pp * pp - 1) / (R as u128)) as u64;
            assert(exp == final_exponent());
            GT::new(f).pow(exp)
        },
    }
}


} // verus!
