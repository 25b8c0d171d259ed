//! The completeness of KZG commitments over the reference string of `setup`: every honest
//! opening verifies, and every pairing that `verify` computes is defined.
use crate::field::{ScalarField, TinyFp, PRIME};
use crate::g2_multiples::g2_pt;
use crate::kzg::{is_setup_srs, scommit, scommit_steps, sopen_proof, sverify_defined, sverify_sides, slinear_divisor, SRS};
use crate::pairing::{distort_point, pairing_defined, sdistort, sproject, spairing, GT};
use crate::pairing_values::{
    col_point, e_gen, g1p, lemma_e_gen, lemma_g1_multiple_0, lemma_g1_multiple_1, lemma_g1_neg, lemma_g1_sum,
    lemma_h_multiple, lemma_pairing_column, lemma_powers, spairing_at,
};
use crate::pcs_gadgets::kzg_complete;
use crate::poly::{fpow, lemma_sdivide_len, lemma_strim, sdivide, seval, strim};
use crate::poly_laws::{hsum, icoeffs, lemma_fpow_val, lemma_hsum_top, lemma_seval_hsum};
use crate::tiny_field::{fp2_of, lemma_fp2_congruent, lemma_fp2_inverse, lemma_fp2_of_canon, lemma_fp2_ops, Fp2, G1Point, G2Point};
use vstd::arithmetic::div_mod::*;
use vstd::arithmetic::power::pow;
use vstd::arithmetic::power2::{lemma2_to64, lemma_pow2_unfold, pow2};
use vstd::prelude::*;

verus! {

/// `n G`.
pub open spec fn gm(n: nat) -> G1Point {
    G1Point::sgenerator().smul(n)
}

/// `(i2 + j2 m) == (i + j (n mod 2^k)) (mod 17)` for the next step of double-and-add.
proof fn lemma_steps_arith(i: nat, j: nat, n: nat, k: nat)
    requires
        k > 0,
    ensures
        (((i + j * (n % 2)) % 17) + ((j + j) % 17) * ((n / 2) % pow2((k - 1) as nat))) % 17 == (i + j * (n
            % pow2(k))) % 17,
{
    let m = (n / 2) % pow2((k - 1) as nat);
    let b = n % 2;
    lemma_pow2_unfold(k);
    vstd::arithmetic::power2::lemma_pow2_pos((k - 1) as nat);
    lemma_mod_breakdown(n as int, 2, pow2((k - 1) as nat) as int);
    assert(n % pow2(k) == 2 * m + b);
    let i2 = (i + j * b) % 17;
    let j2 = (j + j) % 17;
    lemma_fundamental_div_mod((i + j * b) as int, 17);
    lemma_fundamental_div_mod((j + j) as int, 17);
    let q1 = (i + j * b) / 17;
    let q2 = (j + j) / 17;
    assert(i2 + j2 * m == 17 * (-q1 - q2 * m) + (i + j * (2 * m + b))) by (nonlinear_arith)
        requires
            i2 == (i + j * b) - 17 * q1,
            j2 == (j + j) - 17 * q2,
    ;
    lemma_mod_multiples_vanish(-q1 - q2 * m, (i + j * (2 * m + b)) as int, 17);
}

/// Double-and-add from `i G` and `j G` over the low `k` bits of `n` gives
/// `(i + j (n mod 2^k)) G`.
proof fn lemma_gm_steps(i: nat, j: nat, n: nat, k: nat)
    requires
        i < 17,
        j < 17,
    ensures
        G1Point::smul_steps(gm(i), gm(j), n, k) == gm(((i + j * (n % pow2(k))) % 17) as nat),
    decreases k,
{
    if k == 0 {
        lemma2_to64();
        assert(n % 1 == 0);
        assert(j * 0 == 0);
        lemma_small_mod(i, 17);
    } else {
        let b = n % 2;
        let i2 = ((i + j * b) % 17) as nat;
        let j2 = ((j + j) % 17) as nat;
        if b == 1 {
            lemma_g1_sum(i, j);
            assert(j * b == j);
        } else {
            assert(j * b == 0);
            lemma_small_mod(i, 17);
        }
        lemma_g1_sum(j, j);
        G1Point::lemma_add_self_is_double(gm(j));
        lemma_gm_steps(i2, j2, n / 2, (k - 1) as nat);
        lemma_steps_arith(i, j, n, k);
    }
}

/// `(k G) * n == (k n mod 17) G` for `n` below `2^64`.
pub proof fn lemma_gm_mul(k: nat, n: nat)
    requires
        k < 17,
        n < 0x10000000000000000,
    ensures
        gm(k).smul(n) == gm(((k * n) % 17) as nat),
{
    lemma_g1_multiple_0();
    lemma_gm_steps(0, k, n, 64);
    lemma2_to64();
    lemma_small_mod(n, pow2(64));
}

/// `n G == (n mod 17) G` for `n` below `2^64`: the generator has order 17.
pub proof fn lemma_gm_reduce(n: nat)
    requires
        n < 0x10000000000000000,
    ensures
        gm(n) == gm(n % 17),
{
    lemma_g1_multiple_1();
    lemma_gm_mul(1, n);
}

/// The powers of `tau` in G1: `powers[j] == tau^j G`.
pub open spec fn g1_powers_of(powers: Seq<G1Point>, tau: ScalarField) -> bool {
    forall|j: int| 0 <= j < powers.len() ==> #[trigger] powers[j] == gm(fpow(tau, j as nat).val())
}

/// The first `i` terms of a commitment: `(sum_{j < i} c_j tau^j) G`.
proof fn lemma_commit_steps(powers: Seq<G1Point>, c: Seq<ScalarField>, tau: ScalarField, i: nat)
    requires
        g1_powers_of(powers, tau),
        i <= c.len(),
        i <= powers.len(),
    ensures
        scommit_steps(powers, c, i) == gm((hsum(icoeffs(c), 0, i, tau.val() as int) % 17) as nat),
    decreases i,
{
    let tv = tau.val() as int;
    if i == 0 {
        lemma_g1_multiple_0();
        lemma_small_mod(0, 17);
    } else {
        let i1 = (i - 1) as nat;
        lemma_commit_steps(powers, c, tau, i1);
        let h = hsum(icoeffs(c), 0, i1, tv);
        lemma_hsum_top(icoeffs(c), 0, i1, tv);
        let cv = c[i1 as int].val();
        assert(icoeffs(c)(i1 as int) == cv as int);
        let pw = pow(tv, i1);
        lemma_fpow_val(tau, i1);
        let k = fpow(tau, i1).val();
        lemma_mod_bound(pw, 17);
        assert(k < 17);
        lemma_mod_bound(h, 17);
        let hm = (h % 17) as nat;
        if c[i1 as int] == ScalarField::szero() {
            ScalarField::lemma_from_int_val(0);
            assert(cv == 0);
            assert(cv * pw == 0) by (nonlinear_arith)
                requires
                    cv == 0,
            ;
        } else {
            ScalarField::lemma_val_bound(c[i1 as int]);
            assert(powers[i1 as int] == gm(k));
            lemma_gm_mul(k, cv);
            let r = ((k * cv) % 17) as nat;
            lemma_g1_sum(hm, r);
            // (h % 17 + (pw % 17) cv % 17) % 17 == (h + cv pw) % 17
            lemma_mul_mod_noop_left(pw, cv as int, 17);
            lemma_add_mod_noop(h, cv * pw, 17);
            assert((pw % 17) * cv == k * cv);
            assert(cv * pw == pw * cv) by (nonlinear_arith);
            lemma_mod_twice(h, 17);
            lemma_mod_twice((pw * cv) as int, 17);
        }
    }
}

/// A commitment over the powers of `tau` is `f(tau) G`.
pub proof fn lemma_commit_value(powers: Seq<G1Point>, c: Seq<ScalarField>, tau: ScalarField)
    requires
        g1_powers_of(powers, tau),
        c.len() <= powers.len(),
    ensures
        scommit(powers, c) == gm(seval(c, tau).val()),
{
    lemma_commit_steps(powers, c, tau, c.len());
    lemma_seval_hsum(c, tau, c.len());
}

/// The affine point `(x, y)` of the curve over `Fp2`.
pub open spec fn aff(x: Fp2, y: Fp2) -> G2Point {
    G2Point::Affine { x, y }
}

/// Both components of an element of `Fp2` are canonical residues.
pub open spec fn fp2_canon(a: Fp2) -> bool {
    a.c0.canon() && a.c1.canon()
}

/// The ring map `Fp2 -> TinyFp` that sends `i` to 10 (a square root of -1), as `sproject`
/// applies it to each coordinate.
pub open spec fn phi(a: Fp2) -> TinyFp {
    a.c0.sadd(a.c1.smul(TinyFp::from_int(10)))
}

proof fn lemma_phi_of(p: int, q: int)
    ensures
        phi(fp2_of(p, q)) == TinyFp::from_int(p + 10 * q),
        fp2_canon(fp2_of(p, q)),
{
    broadcast use TinyFp::group_tiny_field;

    TinyFp::lemma_from_int_ops(q, 10);
    TinyFp::lemma_from_int_ops(p, q * 10);
    assert(q * 10 == 10 * q);
}

/// `phi` is a ring map on canonical elements, and the operations keep elements canonical.
proof fn lemma_phi_ops(a: Fp2, b: Fp2)
    requires
        fp2_canon(a),
        fp2_canon(b),
    ensures
        phi(a.ssub(b)) == phi(a).ssub(phi(b)),
        phi(a.smul(b)) == phi(a).smul(phi(b)),
        phi(a.sneg()) == phi(a).sneg(),
        fp2_canon(a.ssub(b)),
        fp2_canon(a.smul(b)),
        fp2_canon(a.sneg()),
{
    broadcast use TinyFp::group_tiny_field;

    let (a0, a1) = (a.c0.val() as int, a.c1.val() as int);
    let (b0, b1) = (b.c0.val() as int, b.c1.val() as int);
    lemma_fp2_of_canon(a);
    lemma_fp2_of_canon(b);
    lemma_fp2_ops(a0, a1, b0, b1);
    lemma_phi_of(a0, a1);
    lemma_phi_of(b0, b1);
    lemma_phi_of(a0 - b0, a1 - b1);
    lemma_phi_of(a0 * b0 - a1 * b1, a0 * b1 + a1 * b0);
    lemma_phi_of(-a0, -a1);
    let (pa, pb) = (a0 + 10 * a1, b0 + 10 * b1);
    TinyFp::lemma_from_int_ops(pa, pb);
    TinyFp::lemma_from_int_ops(pa, 0);
    TinyFp::lemma_from_int_congruent(a0 - b0 + 10 * (a1 - b1), pa - pb);
    TinyFp::lemma_from_int_congruent(-a0 + 10 * (-a1), -pa);
    let x = a0 * b0 - a1 * b1 + 10 * (a0 * b1 + a1 * b0);
    assert(x - pa * pb == (-(a1 * b1)) * 101) by (nonlinear_arith)
        requires
            x == a0 * b0 - a1 * b1 + 10 * (a0 * b1 + a1 * b0),
            pa == a0 + 10 * a1,
            pb == b0 + 10 * b1,
    ;
    lemma_mod_multiples_basic(-(a1 * b1), 101);
    TinyFp::lemma_from_int_congruent(x, pa * pb);
}

/// `y` is the inverse of a canonical `x` when `x y == 1`.
proof fn lemma_fp_inverse_unique(x: TinyFp, y: TinyFp)
    requires
        x.canon(),
        y.canon(),
        x.smul(y) == TinyFp::sone(),
    ensures
        y == x.sinv(),
        x.val() != 0,
{
    broadcast use TinyFp::group_tiny_field;

    crate::arith::lemma_prime_101();
    lemma_small_mod(1, 101);
    assert(x.smul(y).val() == (x.val() * y.val()) % 101);
    assert(TinyFp::sone().val() == 1);
    assert((x.val() * y.val()) % 101 == 1);
    assert(x.val() != 0) by {
        if x.val() == 0 {
            assert(x.val() * y.val() == 0);
        }
    }
    crate::arith::lemma_inverse_unique(x.val(), y.val(), 101);
    TinyFp::lemma_from_val(y);
}

/// `phi` maps inverses to inverses, and an invertible element to a non-zero one.
proof fn lemma_phi_inverse(a: Fp2)
    requires
        fp2_canon(a),
        a.sinverse() is Some,
    ensures
        fp2_canon(a.sinverse().unwrap()),
        phi(a.sinverse().unwrap()) == phi(a).sinv(),
        phi(a).val() != 0,
{
    broadcast use TinyFp::group_tiny_field;

    let ai = a.sinverse().unwrap();
    Fp2::lemma_inverse(a);
    assert(fp2_canon(ai));
    lemma_phi_ops(a, ai);
    lemma_phi_of(1, 0);
    assert(Fp2::sone() == fp2_of(1, 0));
    assert(phi(a).smul(phi(ai)) == TinyFp::sone());
    lemma_fp_inverse_unique(phi(a), phi(ai));
}

/// The map `i -> 10` commutes with a chord addition of points with distinct, invertibly
/// different `x`.
proof fn lemma_project_chord(x1: Fp2, y1: Fp2, x2: Fp2, y2: Fp2)
    requires
        fp2_canon(x1),
        fp2_canon(y1),
        fp2_canon(x2),
        fp2_canon(y2),
        x1 != x2,
        x2.ssub(x1).sinverse() is Some,
    ensures
        sproject(aff(x1, y1).sadd(aff(x2, y2))) == sproject(aff(x1, y1)).sadd(sproject(aff(x2, y2))),
        aff(x1, y1).sadd(aff(x2, y2)) != G2Point::Infinity,
{
    broadcast use TinyFp::group_tiny_field;

    assert(crate::pairing::SQRT_MINUS_ONE as int == 10);
    let d = x2.ssub(x1);
    lemma_phi_ops(x2, x1);
    lemma_phi_inverse(d);
    let inv = d.sinverse().unwrap();
    assert(phi(x1) != phi(x2)) by {
        if phi(x1) == phi(x2) {
            assert(phi(d).val() == 0);
        }
    }
    let e = y2.ssub(y1);
    lemma_phi_ops(y2, y1);
    let l = e.smul(inv);
    lemma_phi_ops(e, inv);
    let ll = l.smul(l);
    lemma_phi_ops(l, l);
    lemma_phi_ops(ll, x1);
    let x3 = ll.ssub(x1).ssub(x2);
    lemma_phi_ops(ll.ssub(x1), x2);
    lemma_phi_ops(x1, x3);
    lemma_phi_ops(l, x1.ssub(x3));
    lemma_phi_ops(l.smul(x1.ssub(x3)), y1);
}

/// The map `i -> 10` commutes with negation.
proof fn lemma_project_neg(x: Fp2, y: Fp2)
    requires
        fp2_canon(x),
        fp2_canon(y),
    ensures
        sproject(aff(x, y).sneg()) == sproject(aff(x, y)).sneg(),
        fp2_canon(y.sneg()),
{
    assert(crate::pairing::SQRT_MINUS_ONE as int == 10);
    lemma_phi_ops(y, y);
}

proof fn lemma_fp2_distinct(a: int, b: int, c: int, d: int)
    requires
        0 <= a < PRIME,
        0 <= b < PRIME,
        0 <= c < PRIME,
        0 <= d < PRIME,
        !(a == c && b == d),
    ensures
        fp2_of(a, b) != fp2_of(c, d),
{
    broadcast use TinyFp::group_tiny_field;

    lemma_small_mod(a as nat, PRIME as nat);
    lemma_small_mod(b as nat, PRIME as nat);
    lemma_small_mod(c as nat, PRIME as nat);
    lemma_small_mod(d as nat, PRIME as nat);
    if fp2_of(a, b) == fp2_of(c, d) {
        assert(fp2_of(a, b).c0.val() == fp2_of(c, d).c0.val());
        assert(fp2_of(a, b).c1.val() == fp2_of(c, d).c1.val());
    }
}

/// `A - B` for concrete points of the curve over `Fp2` with distinct `x`, whose difference
/// of `x` has norm `101 q + n`, `n != 0`: defined, affine, and mapped by `i -> 10` to the
/// difference of the images.
proof fn lemma_g2_diff_at(x1: (int, int), y1: (int, int), x2: (int, int), y2: (int, int), q: int, n: int)
    requires
        0 <= x1.0 < PRIME,
        0 <= x1.1 < PRIME,
        0 <= x2.0 < PRIME,
        0 <= x2.1 < PRIME,
        !(x1.0 == x2.0 && x1.1 == x2.1),
        (x2.0 - x1.0) * (x2.0 - x1.0) + (x2.1 - x1.1) * (x2.1 - x1.1) == (PRIME as int) * q + n,
        0 < n < PRIME,
    ensures
        g2_pt(x1.0, x1.1, y1.0, y1.1).add_defined(g2_pt(x2.0, x2.1, y2.0, y2.1).sneg()),
        g2_pt(x1.0, x1.1, y1.0, y1.1).sadd(g2_pt(x2.0, x2.1, y2.0, y2.1).sneg()) != G2Point::Infinity,
        sproject(g2_pt(x1.0, x1.1, y1.0, y1.1).sadd(g2_pt(x2.0, x2.1, y2.0, y2.1).sneg())) == sproject(
            g2_pt(x1.0, x1.1, y1.0, y1.1),
        ).sadd(sproject(g2_pt(x2.0, x2.1, y2.0, y2.1)).sneg()),
{
    let (a, b) = x1;
    let (c, d) = x2;
    lemma_phi_of(a, b);
    lemma_phi_of(c, d);
    lemma_phi_of(y1.0, y1.1);
    lemma_phi_of(y2.0, y2.1);
    lemma_fp2_distinct(a, b, c, d);
    lemma_fp2_ops(c, d, a, b);
    lemma_fp2_inverse(c - a, d - b);
    assert(q * (PRIME as int) == (PRIME as int) * q) by (nonlinear_arith);
    lemma_fundamental_div_mod_converse((c - a) * (c - a) + (d - b) * (d - b), PRIME as int, q, n);
    let y2n = fp2_of(y2.0, y2.1).sneg();
    lemma_project_neg(fp2_of(c, d), fp2_of(y2.0, y2.1));
    lemma_project_chord(fp2_of(a, b), fp2_of(y1.0, y1.1), fp2_of(c, d), y2n);
}

/// `A - A` is the point at infinity, and defined, for `A` with non-zero `y`.
proof fn lemma_g2_self_diff(x0: int, x1: int, y0: int, y1: int)
    requires
        0 <= y0 < PRIME,
        0 <= y1 < PRIME,
        !(y0 == 0 && y1 == 0),
    ensures
        g2_pt(x0, x1, y0, y1).add_defined(g2_pt(x0, x1, y0, y1).sneg()),
        g2_pt(x0, x1, y0, y1).sadd(g2_pt(x0, x1, y0, y1).sneg()) == G2Point::Infinity,
{
    broadcast use TinyFp::group_tiny_field;

    lemma_fp2_ops(y0, y1, 0, 0);
    lemma_small_mod(y0 as nat, PRIME as nat);
    lemma_small_mod(y1 as nat, PRIME as nat);
    let y = fp2_of(y0, y1);
    assert(y != fp2_of(-y0, -y1)) by {
        if y == fp2_of(-y0, -y1) {
            assert(y.c0.val() == fp2_of(-y0, -y1).c0.val());
            assert(y.c1.val() == fp2_of(-y0, -y1).c1.val());
            if y0 != 0 {
                lemma_mod_multiples_vanish(1, -y0, PRIME as int);
                lemma_small_mod((PRIME - y0) as nat, PRIME as nat);
            } else {
                lemma_mod_multiples_vanish(1, -y1, PRIME as int);
                lemma_small_mod((PRIME - y1) as nat, PRIME as nat);
            }
        }
    }
}

/// The image of `A - B` for `A`, `B` of the curve over `Fp2`, with `B`'s image negated.
proof fn lemma_g2_neg_image(x0: int, x1: int, y0: int, y1: int)
    ensures
        sproject(g2_pt(x0, x1, y0, y1).sneg()) == sproject(g2_pt(x0, x1, y0, y1)).sneg(),
{
    lemma_phi_of(x0, x1);
    lemma_phi_of(y0, y1);
    lemma_project_neg(fp2_of(x0, x1), fp2_of(y0, y1));
}

proof fn lemma_w_1_2()
    ensures
        g2_pt(0, 3, 9, 49).add_defined(g2_pt(38, 33, 61, 75).sneg()),
        g2_pt(0, 3, 9, 49).sadd(g2_pt(38, 33, 61, 75).sneg()) != G2Point::Infinity,
        sproject(g2_pt(0, 3, 9, 49).sadd(g2_pt(38, 33, 61, 75).sneg())) == col_point(33),
{
    lemma_g2_diff_at((0, 3), (9, 49), (38, 33), (61, 75), 23, 21);
    crate::pairing_values::lemma_distort_1();
    crate::pairing_values::lemma_distort_2();
    crate::pairing_values::lemma_g1_neg_at(65, 3);
    crate::pairing_values::lemma_g1_add_at((30, 95), (65, 98), (0, 35, 26, 9, 78, 0, 30, 59, 6, -1));
}

proof fn lemma_w_1_3()
    ensures
        g2_pt(0, 3, 9, 49).add_defined(g2_pt(19, 91, 88, 44).sneg()),
        g2_pt(0, 3, 9, 49).sadd(g2_pt(19, 91, 88, 44).sneg()) != G2Point::Infinity,
        sproject(g2_pt(0, 3, 9, 49).sadd(g2_pt(19, 91, 88, 44).sneg())) == col_point(32),
{
    lemma_g2_diff_at((0, 3), (9, 49), (19, 91), (88, 44), 80, 25);
    crate::pairing_values::lemma_distort_1();
    crate::pairing_values::lemma_distort_3();
    crate::pairing_values::lemma_g1_neg_at(20, 23);
    crate::pairing_values::lemma_g1_add_at((30, 95), (20, 78), (-1, 91, 10, 9, 32, -2, 65, 9, 98, -13));
}

proof fn lemma_w_1_4()
    ensures
        g2_pt(0, 3, 9, 49).add_defined(g2_pt(5, 72, 16, 44).sneg()),
        g2_pt(0, 3, 9, 49).sadd(g2_pt(5, 72, 16, 44).sneg()) != G2Point::Infinity,
        sproject(g2_pt(0, 3, 9, 49).sadd(g2_pt(5, 72, 16, 44).sneg())) == col_point(31),
{
    lemma_g2_diff_at((0, 3), (9, 49), (5, 72), (16, 44), 47, 39);
    crate::pairing_values::lemma_distort_1();
    crate::pairing_values::lemma_distort_4();
    crate::pairing_values::lemma_g1_neg_at(18, 52);
    crate::pairing_values::lemma_g1_add_at((30, 95), (18, 49), (-1, 89, 42, 37, 88, -20, 20, 76, 78, 7));
}

proof fn lemma_w_1_5()
    ensures
        g2_pt(0, 3, 9, 49).add_defined(g2_pt(69, 33, 71, 86).sneg()),
        g2_pt(0, 3, 9, 49).sadd(g2_pt(69, 33, 71, 86).sneg()) != G2Point::Infinity,
        sproject(g2_pt(0, 3, 9, 49).sadd(g2_pt(69, 33, 71, 86).sneg())) == col_point(30),
{
    lemma_g2_diff_at((0, 3), (9, 49), (69, 33), (71, 86), 56, 5);
    crate::pairing_values::lemma_distort_1();
    crate::pairing_values::lemma_distort_5();
    crate::pairing_values::lemma_g1_neg_at(96, 22);
    crate::pairing_values::lemma_g1_add_at((30, 95), (96, 79), (0, 66, 75, 49, 12, -12, 18, 0, 49, 0));
}

proof fn lemma_w_1_6()
    ensures
        g2_pt(0, 3, 9, 49).add_defined(g2_pt(57, 46, 17, 52).sneg()),
        g2_pt(0, 3, 9, 49).sadd(g2_pt(57, 46, 17, 52).sneg()) != G2Point::Infinity,
        sproject(g2_pt(0, 3, 9, 49).sadd(g2_pt(57, 46, 17, 52).sneg())) == col_point(29),
{
    lemma_g2_diff_at((0, 3), (9, 49), (57, 46), (17, 52), 50, 48);
    crate::pairing_values::lemma_distort_1();
    crate::pairing_values::lemma_distort_6();
    crate::pairing_values::lemma_g1_neg_at(12, 32);
    crate::pairing_values::lemma_g1_add_at((30, 95), (12, 69), (-1, 83, 28, 23, 80, -8, 96, 62, 79, -54));
}

proof fn lemma_w_1_7()
    ensures
        g2_pt(0, 3, 9, 49).add_defined(g2_pt(81, 47, 93, 16).sneg()),
        g2_pt(0, 3, 9, 49).sadd(g2_pt(81, 47, 93, 16).sneg()) != G2Point::Infinity,
        sproject(g2_pt(0, 3, 9, 49).sadd(g2_pt(81, 47, 93, 16).sneg())) == col_point(28),
{
    lemma_g2_diff_at((0, 3), (9, 49), (81, 47), (93, 16), 84, 13);
    crate::pairing_values::lemma_distort_1();
    crate::pairing_values::lemma_distort_7();
    crate::pairing_values::lemma_g1_neg_at(46, 51);
    crate::pairing_values::lemma_g1_add_at((30, 95), (46, 50), (0, 16, 19, 3, 54, -9, 12, 28, 69, 8));
}

proof fn lemma_w_1_8()
    ensures
        g2_pt(0, 3, 9, 49).add_defined(g2_pt(18, 69, 94, 11).sneg()),
        g2_pt(0, 3, 9, 49).sadd(g2_pt(18, 69, 94, 11).sneg()) != G2Point::Infinity,
        sproject(g2_pt(0, 3, 9, 49).sadd(g2_pt(18, 69, 94, 11).sneg())) == col_point(27),
{
    lemma_g2_diff_at((0, 3), (9, 49), (18, 69), (94, 11), 46, 34);
    crate::pairing_values::lemma_distort_1();
    crate::pairing_values::lemma_distort_8();
    crate::pairing_values::lemma_g1_neg_at(1, 2);
    crate::pairing_values::lemma_g1_add_at((30, 95), (1, 99), (-1, 72, 94, 67, 73, 3, 46, 52, 50, -13));
}

proof fn lemma_w_1_9()
    ensures
        g2_pt(0, 3, 9, 49).add_defined(g2_pt(83, 80, 84, 22).sneg()),
        g2_pt(0, 3, 9, 49).sadd(g2_pt(83, 80, 84, 22).sneg()) != G2Point::Infinity,
        sproject(g2_pt(0, 3, 9, 49).sadd(g2_pt(83, 80, 84, 22).sneg())) == col_point(26),
{
    lemma_g2_diff_at((0, 3), (9, 49), (83, 80), (84, 22), 126, 92);
    crate::pairing_values::lemma_distort_1();
    crate::pairing_values::lemma_distort_9();
    crate::pairing_values::lemma_g1_neg_at(75, 1);
    crate::pairing_values::lemma_g1_add_at((30, 95), (75, 100), (0, 45, 9, 4, 45, 0, 1, 19, 99, 11));
}

proof fn lemma_w_1_10()
    ensures
        g2_pt(0, 3, 9, 49).add_defined(g2_pt(65, 87, 47, 11).sneg()),
        g2_pt(0, 3, 9, 49).sadd(g2_pt(65, 87, 47, 11).sneg()) != G2Point::Infinity,
        sproject(g2_pt(0, 3, 9, 49).sadd(g2_pt(65, 87, 47, 11).sneg())) == col_point(25),
{
    lemma_g2_diff_at((0, 3), (9, 49), (65, 87), (47, 11), 111, 70);
    crate::pairing_values::lemma_distort_1();
    crate::pairing_values::lemma_distort_10();
    crate::pairing_values::lemma_g1_neg_at(26, 56);
    crate::pairing_values::lemma_g1_add_at((30, 95), (26, 45), (-1, 97, 25, 24, 63, -13, 75, 38, 100, -30));
}

proof fn lemma_w_1_11()
    ensures
        g2_pt(0, 3, 9, 49).add_defined(g2_pt(61, 30, 84, 76).sneg()),
        g2_pt(0, 3, 9, 49).sadd(g2_pt(61, 30, 84, 76).sneg()) != G2Point::Infinity,
        sproject(g2_pt(0, 3, 9, 49).sadd(g2_pt(61, 30, 84, 76).sneg())) == col_point(24),
{
    lemma_g2_diff_at((0, 3), (9, 49), (61, 30), (84, 76), 44, 6);
    crate::pairing_values::lemma_distort_1();
    crate::pairing_values::lemma_distort_11();
    crate::pairing_values::lemma_g1_neg_at(58, 36);
    crate::pairing_values::lemma_g1_add_at((30, 95), (58, 65), (0, 28, 83, 23, 35, -25, 26, 11, 45, 0));
}

proof fn lemma_w_1_12()
    ensures
        g2_pt(0, 3, 9, 49).add_defined(g2_pt(29, 87, 70, 40).sneg()),
        g2_pt(0, 3, 9, 49).sadd(g2_pt(29, 87, 70, 40).sneg()) != G2Point::Infinity,
        sproject(g2_pt(0, 3, 9, 49).sadd(g2_pt(29, 87, 70, 40).sneg())) == col_point(23),
{
    lemma_g2_diff_at((0, 3), (9, 49), (29, 87), (70, 40), 78, 19);
    crate::pairing_values::lemma_distort_1();
    crate::pairing_values::lemma_distort_12();
    crate::pairing_values::lemma_g1_neg_at(91, 66);
    crate::pairing_values::lemma_g1_add_at((30, 95), (91, 35), (0, 61, 53, 32, 52, -32, 58, 25, 65, -16));
}

proof fn lemma_w_1_13()
    ensures
        g2_pt(0, 3, 9, 49).add_defined(g2_pt(4, 46, 3, 36).sneg()),
        g2_pt(0, 3, 9, 49).sadd(g2_pt(4, 46, 3, 36).sneg()) != G2Point::Infinity,
        sproject(g2_pt(0, 3, 9, 49).sadd(g2_pt(4, 46, 3, 36).sneg())) == col_point(22),
{
    lemma_g2_diff_at((0, 3), (9, 49), (4, 46), (3, 36), 18, 47);
    crate::pairing_values::lemma_distort_1();
    crate::pairing_values::lemma_distort_13();
    crate::pairing_values::lemma_g1_neg_at(60, 60);
    crate::pairing_values::lemma_g1_add_at((30, 95), (60, 41), (0, 30, 64, 19, 79, -35, 91, 60, 35, -49));
}

proof fn lemma_w_1_14()
    ensures
        g2_pt(0, 3, 9, 49).add_defined(g2_pt(42, 100, 84, 16).sneg()),
        g2_pt(0, 3, 9, 49).sadd(g2_pt(42, 100, 84, 16).sneg()) != G2Point::Infinity,
        sproject(g2_pt(0, 3, 9, 49).sadd(g2_pt(42, 100, 84, 16).sneg())) == col_point(21),
{
    lemma_g2_diff_at((0, 3), (9, 49), (42, 100), (84, 16), 110, 63);
    crate::pairing_values::lemma_distort_1();
    crate::pairing_values::lemma_distort_14();
    crate::pairing_values::lemma_g1_neg_at(32, 42);
    crate::pairing_values::lemma_g1_add_at((30, 95), (32, 59), (0, 2, 51, 1, 83, -19, 60, 67, 41, -26));
}

proof fn lemma_w_1_15()
    ensures
        g2_pt(0, 3, 9, 49).add_defined(g2_pt(71, 14, 32, 68).sneg()),
        g2_pt(0, 3, 9, 49).sadd(g2_pt(71, 14, 32, 68).sneg()) != G2Point::Infinity,
        sproject(g2_pt(0, 3, 9, 49).sadd(g2_pt(71, 14, 32, 68).sneg())) == col_point(20),
{
    lemma_g2_diff_at((0, 3), (9, 49), (71, 14), (32, 68), 51, 11);
    crate::pairing_values::lemma_distort_1();
    crate::pairing_values::lemma_distort_15();
    crate::pairing_values::lemma_g1_neg_at(9, 5);
    crate::pairing_values::lemma_g1_add_at((30, 95), (9, 96), (-1, 80, 24, 19, 24, 0, 32, 5, 59, -2));
}

proof fn lemma_w_1_16()
    ensures
        g2_pt(0, 3, 9, 49).add_defined(g2_pt(93, 48, 94, 99).sneg()),
        g2_pt(0, 3, 9, 49).sadd(g2_pt(93, 48, 94, 99).sneg()) != G2Point::Infinity,
        sproject(g2_pt(0, 3, 9, 49).sadd(g2_pt(93, 48, 94, 99).sneg())) == col_point(19),
{
    lemma_g2_diff_at((0, 3), (9, 49), (93, 48), (94, 99), 105, 69);
    crate::pairing_values::lemma_distort_1();
    crate::pairing_values::lemma_distort_16();
    crate::pairing_values::lemma_g1_neg_at(68, 74);
    crate::pairing_values::lemma_g1_add_at((30, 95), (68, 27), (0, 38, 8, 3, 62, -6, 9, 37, 96, 11));
}

proof fn lemma_w_2_1()
    ensures
        g2_pt(38, 33, 61, 75).add_defined(g2_pt(0, 3, 9, 49).sneg()),
        g2_pt(38, 33, 61, 75).sadd(g2_pt(0, 3, 9, 49).sneg()) != G2Point::Infinity,
        sproject(g2_pt(38, 33, 61, 75).sadd(g2_pt(0, 3, 9, 49).sneg())) == col_point(1),
{
    lemma_g2_diff_at((38, 33), (61, 75), (0, 3), (9, 49), 23, 21);
    crate::pairing_values::lemma_distort_2();
    crate::pairing_values::lemma_distort_1();
    crate::pairing_values::lemma_g1_neg_at(30, 95);
    crate::pairing_values::lemma_g1_add_at((65, 3), (30, 6), (-1, 66, 75, 49, 23, 2, 30, 4, 95, 7));
}

proof fn lemma_w_2_3()
    ensures
        g2_pt(38, 33, 61, 75).add_defined(g2_pt(19, 91, 88, 44).sneg()),
        g2_pt(38, 33, 61, 75).sadd(g2_pt(19, 91, 88, 44).sneg()) != G2Point::Infinity,
        sproject(g2_pt(38, 33, 61, 75).sadd(g2_pt(19, 91, 88, 44).sneg())) == col_point(33),
{
    lemma_g2_diff_at((38, 33), (61, 75), (19, 91), (88, 44), 36, 89);
    crate::pairing_values::lemma_distort_2();
    crate::pairing_values::lemma_distort_3();
    crate::pairing_values::lemma_g1_neg_at(20, 23);
    crate::pairing_values::lemma_g1_add_at((65, 3), (20, 78), (-1, 56, 92, 51, 32, 68, 30, 9, 6, 11));
}

proof fn lemma_w_2_4()
    ensures
        g2_pt(38, 33, 61, 75).add_defined(g2_pt(5, 72, 16, 44).sneg()),
        g2_pt(38, 33, 61, 75).sadd(g2_pt(5, 72, 16, 44).sneg()) != G2Point::Infinity,
        sproject(g2_pt(38, 33, 61, 75).sadd(g2_pt(5, 72, 16, 44).sneg())) == col_point(32),
{
    lemma_g2_diff_at((38, 33), (61, 75), (5, 72), (16, 44), 25, 85);
    crate::pairing_values::lemma_distort_2();
    crate::pairing_values::lemma_distort_4();
    crate::pairing_values::lemma_g1_neg_at(18, 52);
    crate::pairing_values::lemma_g1_add_at((65, 3), (18, 49), (-1, 54, 58, 31, 42, 26, 65, 16, 98, -1));
}

proof fn lemma_w_2_5()
    ensures
        g2_pt(38, 33, 61, 75).add_defined(g2_pt(69, 33, 71, 86).sneg()),
        g2_pt(38, 33, 61, 75).sadd(g2_pt(69, 33, 71, 86).sneg()) != G2Point::Infinity,
        sproject(g2_pt(38, 33, 61, 75).sadd(g2_pt(69, 33, 71, 86).sneg())) == col_point(31),
{
    lemma_g2_diff_at((38, 33), (61, 75), (69, 33), (71, 86), 9, 52);
    crate::pairing_values::lemma_distort_2();
    crate::pairing_values::lemma_distort_5();
    crate::pairing_values::lemma_g1_neg_at(96, 22);
    crate::pairing_values::lemma_g1_add_at((65, 3), (96, 79), (0, 31, 88, 27, 22, 66, 20, 3, 78, 9));
}

proof fn lemma_w_2_6()
    ensures
        g2_pt(38, 33, 61, 75).add_defined(g2_pt(57, 46, 17, 52).sneg()),
        g2_pt(38, 33, 61, 75).sadd(g2_pt(57, 46, 17, 52).sneg()) != G2Point::Infinity,
        sproject(g2_pt(38, 33, 61, 75).sadd(g2_pt(57, 46, 17, 52).sneg())) == col_point(30),
{
    lemma_g2_diff_at((38, 33), (61, 75), (57, 46), (17, 52), 5, 25);
    crate::pairing_values::lemma_distort_2();
    crate::pairing_values::lemma_distort_6();
    crate::pairing_values::lemma_g1_neg_at(12, 32);
    crate::pairing_values::lemma_g1_add_at((65, 3), (12, 69), (-1, 48, 40, 19, 14, 26, 18, 1, 49, 6));
}

proof fn lemma_w_2_7()
    ensures
        g2_pt(38, 33, 61, 75).add_defined(g2_pt(81, 47, 93, 16).sneg()),
        g2_pt(38, 33, 61, 75).sadd(g2_pt(81, 47, 93, 16).sneg()) != G2Point::Infinity,
        sproject(g2_pt(38, 33, 61, 75).sadd(g2_pt(81, 47, 93, 16).sneg())) == col_point(29),
{
    lemma_g2_diff_at((38, 33), (61, 75), (81, 47), (93, 16), 20, 25);
    crate::pairing_values::lemma_distort_2();
    crate::pairing_values::lemma_distort_7();
    crate::pairing_values::lemma_g1_neg_at(46, 51);
    crate::pairing_values::lemma_g1_add_at((65, 3), (46, 50), (-1, 82, 85, 69, 56, 39, 96, 29, 79, -18));
}

proof fn lemma_w_2_8()
    ensures
        g2_pt(38, 33, 61, 75).add_defined(g2_pt(18, 69, 94, 11).sneg()),
        g2_pt(38, 33, 61, 75).sadd(g2_pt(18, 69, 94, 11).sneg()) != G2Point::Infinity,
        sproject(g2_pt(38, 33, 61, 75).sadd(g2_pt(18, 69, 94, 11).sneg())) == col_point(28),
{
    lemma_g2_diff_at((38, 33), (61, 75), (18, 69), (94, 11), 16, 80);
    crate::pairing_values::lemma_distort_2();
    crate::pairing_values::lemma_distort_8();
    crate::pairing_values::lemma_g1_neg_at(1, 2);
    crate::pairing_values::lemma_g1_add_at((65, 3), (1, 99), (-1, 37, 71, 26, 49, 67, 12, 23, 69, 25));
}

proof fn lemma_w_2_9()
    ensures
        g2_pt(38, 33, 61, 75).add_defined(g2_pt(83, 80, 84, 22).sneg()),
        g2_pt(38, 33, 61, 75).sadd(g2_pt(83, 80, 84, 22).sneg()) != G2Point::Infinity,
        sproject(g2_pt(38, 33, 61, 75).sadd(g2_pt(83, 80, 84, 22).sneg())) == col_point(27),
{
    lemma_g2_diff_at((38, 33), (61, 75), (83, 80), (84, 22), 41, 93);
    crate::pairing_values::lemma_distort_2();
    crate::pairing_values::lemma_distort_9();
    crate::pairing_values::lemma_g1_neg_at(75, 1);
    crate::pairing_values::lemma_g1_add_at((65, 3), (75, 100), (0, 10, 91, 9, 40, 87, 46, 14, 50, 7));
}

proof fn lemma_w_2_10()
    ensures
        g2_pt(38, 33, 61, 75).add_defined(g2_pt(65, 87, 47, 11).sneg()),
        g2_pt(38, 33, 61, 75).sadd(g2_pt(65, 87, 47, 11).sneg()) != G2Point::Infinity,
        sproject(g2_pt(38, 33, 61, 75).sadd(g2_pt(65, 87, 47, 11).sneg())) == col_point(26),
{
    lemma_g2_diff_at((38, 33), (61, 75), (65, 87), (47, 11), 36, 9);
    crate::pairing_values::lemma_distort_2();
    crate::pairing_values::lemma_distort_10();
    crate::pairing_values::lemma_g1_neg_at(26, 56);
    crate::pairing_values::lemma_g1_add_at((65, 3), (26, 45), (-1, 62, 44, 27, 30, 18, 1, 8, 99, 18));
}

proof fn lemma_w_2_11()
    ensures
        g2_pt(38, 33, 61, 75).add_defined(g2_pt(61, 30, 84, 76).sneg()),
        g2_pt(38, 33, 61, 75).sadd(g2_pt(61, 30, 84, 76).sneg()) != G2Point::Infinity,
        sproject(g2_pt(38, 33, 61, 75).sadd(g2_pt(61, 30, 84, 76).sneg())) == col_point(25),
{
    lemma_g2_diff_at((38, 33), (61, 75), (61, 30), (84, 76), 5, 33);
    crate::pairing_values::lemma_distort_2();
    crate::pairing_values::lemma_distort_11();
    crate::pairing_values::lemma_g1_neg_at(58, 36);
    crate::pairing_values::lemma_g1_add_at((65, 3), (58, 65), (-1, 94, 72, 67, 20, 44, 75, 2, 100, -3));
}

proof fn lemma_w_2_12()
    ensures
        g2_pt(38, 33, 61, 75).add_defined(g2_pt(29, 87, 70, 40).sneg()),
        g2_pt(38, 33, 61, 75).sadd(g2_pt(29, 87, 70, 40).sneg()) != G2Point::Infinity,
        sproject(g2_pt(38, 33, 61, 75).sadd(g2_pt(29, 87, 70, 40).sneg())) == col_point(24),
{
    lemma_g2_diff_at((38, 33), (61, 75), (29, 87), (70, 40), 29, 68);
    crate::pairing_values::lemma_distort_2();
    crate::pairing_values::lemma_distort_12();
    crate::pairing_values::lemma_g1_neg_at(91, 66);
    crate::pairing_values::lemma_g1_add_at((65, 3), (91, 35), (0, 26, 35, 9, 9, 11, 26, -1, 45, 3));
}

proof fn lemma_w_2_13()
    ensures
        g2_pt(38, 33, 61, 75).add_defined(g2_pt(4, 46, 3, 36).sneg()),
        g2_pt(38, 33, 61, 75).sadd(g2_pt(4, 46, 3, 36).sneg()) != G2Point::Infinity,
        sproject(g2_pt(38, 33, 61, 75).sadd(g2_pt(4, 46, 3, 36).sneg())) == col_point(23),
{
    lemma_g2_diff_at((38, 33), (61, 75), (4, 46), (3, 36), 13, 12);
    crate::pairing_values::lemma_distort_2();
    crate::pairing_values::lemma_distort_13();
    crate::pairing_values::lemma_g1_neg_at(60, 60);
    crate::pairing_values::lemma_g1_add_at((65, 3), (60, 41), (-1, 96, 20, 19, 53, 7, 58, 26, 65, 3));
}

proof fn lemma_w_2_14()
    ensures
        g2_pt(38, 33, 61, 75).add_defined(g2_pt(42, 100, 84, 16).sneg()),
        g2_pt(38, 33, 61, 75).sadd(g2_pt(42, 100, 84, 16).sneg()) != G2Point::Infinity,
        sproject(g2_pt(38, 33, 61, 75).sadd(g2_pt(42, 100, 84, 16).sneg())) == col_point(22),
{
    lemma_g2_diff_at((38, 33), (61, 75), (42, 100), (84, 16), 44, 61);
    crate::pairing_values::lemma_distort_2();
    crate::pairing_values::lemma_distort_14();
    crate::pairing_values::lemma_g1_neg_at(32, 42);
    crate::pairing_values::lemma_g1_add_at((65, 3), (32, 59), (-1, 68, 52, 35, 84, 28, 91, 68, 35, -22));
}

proof fn lemma_w_2_15()
    ensures
        g2_pt(38, 33, 61, 75).add_defined(g2_pt(71, 14, 32, 68).sneg()),
        g2_pt(38, 33, 61, 75).sadd(g2_pt(71, 14, 32, 68).sneg()) != G2Point::Infinity,
        sproject(g2_pt(38, 33, 61, 75).sadd(g2_pt(71, 14, 32, 68).sneg())) == col_point(21),
{
    lemma_g2_diff_at((38, 33), (61, 75), (71, 14), (32, 68), 14, 36);
    crate::pairing_values::lemma_distort_2();
    crate::pairing_values::lemma_distort_15();
    crate::pairing_values::lemma_g1_neg_at(9, 5);
    crate::pairing_values::lemma_g1_add_at((65, 3), (9, 96), (-1, 45, 9, 4, 29, 8, 60, 7, 41, 1));
}

proof fn lemma_w_2_16()
    ensures
        g2_pt(38, 33, 61, 75).add_defined(g2_pt(93, 48, 94, 99).sneg()),
        g2_pt(38, 33, 61, 75).sadd(g2_pt(93, 48, 94, 99).sneg()) != G2Point::Infinity,
        sproject(g2_pt(38, 33, 61, 75).sadd(g2_pt(93, 48, 94, 99).sneg())) == col_point(20),
{
    lemma_g2_diff_at((38, 33), (61, 75), (93, 48), (94, 99), 32, 18);
    crate::pairing_values::lemma_distort_2();
    crate::pairing_values::lemma_distort_16();
    crate::pairing_values::lemma_g1_neg_at(68, 74);
    crate::pairing_values::lemma_g1_add_at((65, 3), (68, 27), (0, 3, 34, 1, 8, 8, 32, -1, 59, 2));
}

proof fn lemma_w_3_1()
    ensures
        g2_pt(19, 91, 88, 44).add_defined(g2_pt(0, 3, 9, 49).sneg()),
        g2_pt(19, 91, 88, 44).sadd(g2_pt(0, 3, 9, 49).sneg()) != G2Point::Infinity,
        sproject(g2_pt(19, 91, 88, 44).sadd(g2_pt(0, 3, 9, 49).sneg())) == col_point(2),
{
    lemma_g2_diff_at((19, 91), (88, 44), (0, 3), (9, 49), 80, 25);
    crate::pairing_values::lemma_distort_3();
    crate::pairing_values::lemma_distort_1();
    crate::pairing_values::lemma_g1_neg_at(30, 95);
    crate::pairing_values::lemma_g1_add_at((20, 23), (30, 6), (0, 10, 91, 9, 69, -16, 65, 46, 3, -31));
}

proof fn lemma_w_3_2()
    ensures
        g2_pt(19, 91, 88, 44).add_defined(g2_pt(38, 33, 61, 75).sneg()),
        g2_pt(19, 91, 88, 44).sadd(g2_pt(38, 33, 61, 75).sneg()) != G2Point::Infinity,
        sproject(g2_pt(19, 91, 88, 44).sadd(g2_pt(38, 33, 61, 75).sneg())) == col_point(1),
{
    lemma_g2_diff_at((19, 91), (88, 44), (38, 33), (61, 75), 36, 89);
    crate::pairing_values::lemma_distort_3();
    crate::pairing_values::lemma_distort_2();
    crate::pairing_values::lemma_g1_neg_at(65, 3);
    crate::pairing_values::lemma_g1_add_at((20, 23), (65, 98), (0, 45, 9, 4, 69, 6, 30, 46, 95, -8));
}

proof fn lemma_w_3_4()
    ensures
        g2_pt(19, 91, 88, 44).add_defined(g2_pt(5, 72, 16, 44).sneg()),
        g2_pt(19, 91, 88, 44).sadd(g2_pt(5, 72, 16, 44).sneg()) != G2Point::Infinity,
        sproject(g2_pt(19, 91, 88, 44).sadd(g2_pt(5, 72, 16, 44).sneg())) == col_point(33),
{
    lemma_g2_diff_at((19, 91), (88, 44), (5, 72), (16, 44), 5, 52);
    crate::pairing_values::lemma_distort_3();
    crate::pairing_values::lemma_distort_4();
    crate::pairing_values::lemma_g1_neg_at(18, 52);
    crate::pairing_values::lemma_g1_add_at((20, 23), (18, 49), (-1, 99, 50, 49, 88, 12, 30, 76, 6, -9));
}

proof fn lemma_w_3_5()
    ensures
        g2_pt(19, 91, 88, 44).add_defined(g2_pt(69, 33, 71, 86).sneg()),
        g2_pt(19, 91, 88, 44).sadd(g2_pt(69, 33, 71, 86).sneg()) != G2Point::Infinity,
        sproject(g2_pt(19, 91, 88, 44).sadd(g2_pt(69, 33, 71, 86).sneg())) == col_point(32),
{
    lemma_g2_diff_at((19, 91), (88, 44), (69, 33), (71, 86), 58, 6);
    crate::pairing_values::lemma_distort_3();
    crate::pairing_values::lemma_distort_5();
    crate::pairing_values::lemma_g1_neg_at(96, 22);
    crate::pairing_values::lemma_g1_add_at((20, 23), (96, 79), (0, 76, 4, 3, 22, 2, 65, 3, 98, -11));
}

proof fn lemma_w_3_6()
    ensures
        g2_pt(19, 91, 88, 44).add_defined(g2_pt(57, 46, 17, 52).sneg()),
        g2_pt(19, 91, 88, 44).sadd(g2_pt(57, 46, 17, 52).sneg()) != G2Point::Infinity,
        sproject(g2_pt(19, 91, 88, 44).sadd(g2_pt(57, 46, 17, 52).sneg())) == col_point(31),
{
    lemma_g2_diff_at((19, 91), (88, 44), (57, 46), (17, 52), 34, 35);
    crate::pairing_values::lemma_distort_3();
    crate::pairing_values::lemma_distort_6();
    crate::pairing_values::lemma_g1_neg_at(12, 32);
    crate::pairing_values::lemma_g1_add_at((20, 23), (12, 69), (-1, 93, 63, 58, 70, 28, 20, 48, 78, -1));
}

proof fn lemma_w_3_7()
    ensures
        g2_pt(19, 91, 88, 44).add_defined(g2_pt(81, 47, 93, 16).sneg()),
        g2_pt(19, 91, 88, 44).sadd(g2_pt(81, 47, 93, 16).sneg()) != G2Point::Infinity,
        sproject(g2_pt(19, 91, 88, 44).sadd(g2_pt(81, 47, 93, 16).sneg())) == col_point(30),
{
    lemma_g2_diff_at((19, 91), (88, 44), (81, 47), (93, 16), 57, 23);
    crate::pairing_values::lemma_distort_3();
    crate::pairing_values::lemma_distort_7();
    crate::pairing_values::lemma_g1_neg_at(46, 51);
    crate::pairing_values::lemma_g1_add_at((20, 23), (46, 50), (0, 26, 35, 9, 36, 9, 18, 12, 49, 0));
}

proof fn lemma_w_3_8()
    ensures
        g2_pt(19, 91, 88, 44).add_defined(g2_pt(18, 69, 94, 11).sneg()),
        g2_pt(19, 91, 88, 44).sadd(g2_pt(18, 69, 94, 11).sneg()) != G2Point::Infinity,
        sproject(g2_pt(19, 91, 88, 44).sadd(g2_pt(18, 69, 94, 11).sneg())) == col_point(29),
{
    lemma_g2_diff_at((19, 91), (88, 44), (18, 69), (94, 11), 4, 81);
    crate::pairing_values::lemma_distort_3();
    crate::pairing_values::lemma_distort_8();
    crate::pairing_values::lemma_g1_neg_at(1, 2);
    crate::pairing_values::lemma_g1_add_at((20, 23), (1, 99), (-1, 82, 85, 69, 97, 63, 96, 92, 79, -74));
}

proof fn lemma_w_3_9()
    ensures
        g2_pt(19, 91, 88, 44).add_defined(g2_pt(83, 80, 84, 22).sneg()),
        g2_pt(19, 91, 88, 44).sadd(g2_pt(83, 80, 84, 22).sneg()) != G2Point::Infinity,
        sproject(g2_pt(19, 91, 88, 44).sadd(g2_pt(83, 80, 84, 22).sneg())) == col_point(28),
{
    lemma_g2_diff_at((19, 91), (88, 44), (83, 80), (84, 22), 41, 76);
    crate::pairing_values::lemma_distort_3();
    crate::pairing_values::lemma_distort_9();
    crate::pairing_values::lemma_g1_neg_at(75, 1);
    crate::pairing_values::lemma_g1_add_at((20, 23), (75, 100), (0, 55, 90, 49, 62, 68, 12, 37, 69, 4));
}

proof fn lemma_w_3_10()
    ensures
        g2_pt(19, 91, 88, 44).add_defined(g2_pt(65, 87, 47, 11).sneg()),
        g2_pt(19, 91, 88, 44).sadd(g2_pt(65, 87, 47, 11).sneg()) != G2Point::Infinity,
        sproject(g2_pt(19, 91, 88, 44).sadd(g2_pt(65, 87, 47, 11).sneg())) == col_point(27),
{
    lemma_g2_diff_at((19, 91), (88, 44), (65, 87), (47, 11), 21, 11);
    crate::pairing_values::lemma_distort_3();
    crate::pairing_values::lemma_distort_10();
    crate::pairing_values::lemma_g1_neg_at(26, 56);
    crate::pairing_values::lemma_g1_add_at((20, 23), (26, 45), (0, 6, 17, 1, 71, 3, 46, 49, 50, -19));
}

proof fn lemma_w_3_11()
    ensures
        g2_pt(19, 91, 88, 44).add_defined(g2_pt(61, 30, 84, 76).sneg()),
        g2_pt(19, 91, 88, 44).sadd(g2_pt(61, 30, 84, 76).sneg()) != G2Point::Infinity,
        sproject(g2_pt(19, 91, 88, 44).sadd(g2_pt(61, 30, 84, 76).sneg())) == col_point(26),
{
    lemma_g2_diff_at((19, 91), (88, 44), (61, 30), (84, 76), 54, 31);
    crate::pairing_values::lemma_distort_3();
    crate::pairing_values::lemma_distort_11();
    crate::pairing_values::lemma_g1_neg_at(58, 36);
    crate::pairing_values::lemma_g1_add_at((20, 23), (58, 65), (0, 38, 8, 3, 33, 3, 1, 10, 99, 5));
}

proof fn lemma_w_3_12()
    ensures
        g2_pt(19, 91, 88, 44).add_defined(g2_pt(29, 87, 70, 40).sneg()),
        g2_pt(19, 91, 88, 44).sadd(g2_pt(29, 87, 70, 40).sneg()) != G2Point::Infinity,
        sproject(g2_pt(19, 91, 88, 44).sadd(g2_pt(29, 87, 70, 40).sneg())) == col_point(25),
{
    lemma_g2_diff_at((19, 91), (88, 44), (29, 87), (70, 40), 1, 15);
    crate::pairing_values::lemma_distort_3();
    crate::pairing_values::lemma_distort_12();
    crate::pairing_values::lemma_g1_neg_at(91, 66);
    crate::pairing_values::lemma_g1_add_at((20, 23), (91, 35), (0, 71, 37, 26, 40, 4, 75, 14, 100, -23));
}

proof fn lemma_w_3_13()
    ensures
        g2_pt(19, 91, 88, 44).add_defined(g2_pt(4, 46, 3, 36).sneg()),
        g2_pt(19, 91, 88, 44).sadd(g2_pt(4, 46, 3, 36).sneg()) != G2Point::Infinity,
        sproject(g2_pt(19, 91, 88, 44).sadd(g2_pt(4, 46, 3, 36).sneg())) == col_point(24),
{
    lemma_g2_diff_at((19, 91), (88, 44), (4, 46), (3, 36), 22, 28);
    crate::pairing_values::lemma_distort_3();
    crate::pairing_values::lemma_distort_13();
    crate::pairing_values::lemma_g1_neg_at(60, 60);
    crate::pairing_values::lemma_g1_add_at((20, 23), (60, 41), (0, 40, 48, 19, 56, 8, 26, 30, 45, -4));
}

proof fn lemma_w_3_14()
    ensures
        g2_pt(19, 91, 88, 44).add_defined(g2_pt(42, 100, 84, 16).sneg()),
        g2_pt(19, 91, 88, 44).sadd(g2_pt(42, 100, 84, 16).sneg()) != G2Point::Infinity,
        sproject(g2_pt(19, 91, 88, 44).sadd(g2_pt(42, 100, 84, 16).sneg())) == col_point(23),
{
    lemma_g2_diff_at((19, 91), (88, 44), (42, 100), (84, 16), 6, 4);
    crate::pairing_values::lemma_distort_3();
    crate::pairing_values::lemma_distort_14();
    crate::pairing_values::lemma_g1_neg_at(32, 42);
    crate::pairing_values::lemma_g1_add_at((20, 23), (32, 59), (0, 12, 59, 7, 3, 21, 58, -1, 65, -2));
}

proof fn lemma_w_3_15()
    ensures
        g2_pt(19, 91, 88, 44).add_defined(g2_pt(71, 14, 32, 68).sneg()),
        g2_pt(19, 91, 88, 44).sadd(g2_pt(71, 14, 32, 68).sneg()) != G2Point::Infinity,
        sproject(g2_pt(19, 91, 88, 44).sadd(g2_pt(71, 14, 32, 68).sneg())) == col_point(22),
{
    lemma_g2_diff_at((19, 91), (88, 44), (71, 14), (32, 68), 85, 48);
    crate::pairing_values::lemma_distort_3();
    crate::pairing_values::lemma_distort_15();
    crate::pairing_values::lemma_g1_neg_at(9, 5);
    crate::pairing_values::lemma_g1_add_at((20, 23), (9, 96), (-1, 90, 55, 49, 76, 39, 91, 56, 35, -54));
}

proof fn lemma_w_3_16()
    ensures
        g2_pt(19, 91, 88, 44).add_defined(g2_pt(93, 48, 94, 99).sneg()),
        g2_pt(19, 91, 88, 44).sadd(g2_pt(93, 48, 94, 99).sneg()) != G2Point::Infinity,
        sproject(g2_pt(19, 91, 88, 44).sadd(g2_pt(93, 48, 94, 99).sneg())) == col_point(21),
{
    lemma_g2_diff_at((19, 91), (88, 44), (93, 48), (94, 99), 72, 53);
    crate::pairing_values::lemma_distort_3();
    crate::pairing_values::lemma_distort_16();
    crate::pairing_values::lemma_g1_neg_at(68, 74);
    crate::pairing_values::lemma_g1_add_at((20, 23), (68, 27), (0, 48, 40, 19, 59, 1, 60, 33, 41, -24));
}

proof fn lemma_w_4_1()
    ensures
        g2_pt(5, 72, 16, 44).add_defined(g2_pt(0, 3, 9, 49).sneg()),
        g2_pt(5, 72, 16, 44).sadd(g2_pt(0, 3, 9, 49).sneg()) != G2Point::Infinity,
        sproject(g2_pt(5, 72, 16, 44).sadd(g2_pt(0, 3, 9, 49).sneg())) == col_point(3),
{
    lemma_g2_diff_at((5, 72), (16, 44), (0, 3), (9, 49), 47, 39);
    crate::pairing_values::lemma_distort_4();
    crate::pairing_values::lemma_distort_1();
    crate::pairing_values::lemma_g1_neg_at(30, 95);
    crate::pairing_values::lemma_g1_add_at((18, 52), (30, 6), (0, 12, 59, 7, 13, -27, 20, 1, 23, -1));
}

proof fn lemma_w_4_2()
    ensures
        g2_pt(5, 72, 16, 44).add_defined(g2_pt(38, 33, 61, 75).sneg()),
        g2_pt(5, 72, 16, 44).sadd(g2_pt(38, 33, 61, 75).sneg()) != G2Point::Infinity,
        sproject(g2_pt(5, 72, 16, 44).sadd(g2_pt(38, 33, 61, 75).sneg())) == col_point(2),
{
    lemma_g2_diff_at((5, 72), (16, 44), (38, 33), (61, 75), 25, 85);
    crate::pairing_values::lemma_distort_4();
    crate::pairing_values::lemma_distort_2();
    crate::pairing_values::lemma_g1_neg_at(65, 3);
    crate::pairing_values::lemma_g1_add_at((18, 52), (65, 98), (0, 47, 43, 20, 59, 19, 65, 33, 3, -28));
}

proof fn lemma_w_4_3()
    ensures
        g2_pt(5, 72, 16, 44).add_defined(g2_pt(19, 91, 88, 44).sneg()),
        g2_pt(5, 72, 16, 44).sadd(g2_pt(19, 91, 88, 44).sneg()) != G2Point::Infinity,
        sproject(g2_pt(5, 72, 16, 44).sadd(g2_pt(19, 91, 88, 44).sneg())) == col_point(1),
{
    lemma_g2_diff_at((5, 72), (16, 44), (19, 91), (88, 44), 5, 52);
    crate::pairing_values::lemma_distort_4();
    crate::pairing_values::lemma_distort_3();
    crate::pairing_values::lemma_g1_neg_at(20, 23);
    crate::pairing_values::lemma_g1_add_at((18, 52), (20, 78), (0, 2, 51, 1, 13, 13, 30, 1, 95, -3));
}

proof fn lemma_w_4_5()
    ensures
        g2_pt(5, 72, 16, 44).add_defined(g2_pt(69, 33, 71, 86).sneg()),
        g2_pt(5, 72, 16, 44).sadd(g2_pt(69, 33, 71, 86).sneg()) != G2Point::Infinity,
        sproject(g2_pt(5, 72, 16, 44).sadd(g2_pt(69, 33, 71, 86).sneg())) == col_point(33),
{
    lemma_g2_diff_at((5, 72), (16, 44), (69, 33), (71, 86), 55, 62);
    crate::pairing_values::lemma_distort_4();
    crate::pairing_values::lemma_distort_5();
    crate::pairing_values::lemma_g1_neg_at(96, 22);
    crate::pairing_values::lemma_g1_add_at((18, 52), (96, 79), (0, 78, 79, 61, 12, 21, 30, 0, 6, -2));
}

proof fn lemma_w_4_6()
    ensures
        g2_pt(5, 72, 16, 44).add_defined(g2_pt(57, 46, 17, 52).sneg()),
        g2_pt(5, 72, 16, 44).sadd(g2_pt(57, 46, 17, 52).sneg()) != G2Point::Infinity,
        sproject(g2_pt(5, 72, 16, 44).sadd(g2_pt(57, 46, 17, 52).sneg())) == col_point(32),
{
    lemma_g2_diff_at((5, 72), (16, 44), (57, 46), (17, 52), 33, 47);
    crate::pairing_values::lemma_distort_4();
    crate::pairing_values::lemma_distort_6();
    crate::pairing_values::lemma_g1_neg_at(12, 32);
    crate::pairing_values::lemma_g1_add_at((18, 52), (12, 69), (-1, 95, 84, 79, 14, 14, 65, 1, 98, -8));
}

proof fn lemma_w_4_7()
    ensures
        g2_pt(5, 72, 16, 44).add_defined(g2_pt(81, 47, 93, 16).sneg()),
        g2_pt(5, 72, 16, 44).sadd(g2_pt(81, 47, 93, 16).sneg()) != G2Point::Infinity,
        sproject(g2_pt(5, 72, 16, 44).sadd(g2_pt(81, 47, 93, 16).sneg())) == col_point(31),
{
    lemma_g2_diff_at((5, 72), (16, 44), (81, 47), (93, 16), 63, 38);
    crate::pairing_values::lemma_distort_4();
    crate::pairing_values::lemma_distort_7();
    crate::pairing_values::lemma_g1_neg_at(46, 51);
    crate::pairing_values::lemma_g1_add_at((18, 52), (46, 50), (0, 28, 83, 23, 36, -2, 20, 12, 78, -2));
}

proof fn lemma_w_4_8()
    ensures
        g2_pt(5, 72, 16, 44).add_defined(g2_pt(18, 69, 94, 11).sneg()),
        g2_pt(5, 72, 16, 44).sadd(g2_pt(18, 69, 94, 11).sneg()) != G2Point::Infinity,
        sproject(g2_pt(5, 72, 16, 44).sadd(g2_pt(18, 69, 94, 11).sneg())) == col_point(30),
{
    lemma_g2_diff_at((5, 72), (16, 44), (18, 69), (94, 11), 1, 77);
    crate::pairing_values::lemma_distort_4();
    crate::pairing_values::lemma_distort_8();
    crate::pairing_values::lemma_g1_neg_at(1, 2);
    crate::pairing_values::lemma_g1_add_at((18, 52), (1, 99), (-1, 84, 95, 79, 21, 44, 18, 4, 49, -1));
}

proof fn lemma_w_4_9()
    ensures
        g2_pt(5, 72, 16, 44).add_defined(g2_pt(83, 80, 84, 22).sneg()),
        g2_pt(5, 72, 16, 44).sadd(g2_pt(83, 80, 84, 22).sneg()) != G2Point::Infinity,
        sproject(g2_pt(5, 72, 16, 44).sadd(g2_pt(83, 80, 84, 22).sneg())) == col_point(29),
{
    lemma_g2_diff_at((5, 72), (16, 44), (83, 80), (84, 22), 60, 88);
    crate::pairing_values::lemma_distort_4();
    crate::pairing_values::lemma_distort_9();
    crate::pairing_values::lemma_g1_neg_at(75, 1);
    crate::pairing_values::lemma_g1_add_at((18, 52), (75, 100), (0, 57, 39, 22, 54, 18, 96, 27, 79, -43));
}

proof fn lemma_w_4_10()
    ensures
        g2_pt(5, 72, 16, 44).add_defined(g2_pt(65, 87, 47, 11).sneg()),
        g2_pt(5, 72, 16, 44).sadd(g2_pt(65, 87, 47, 11).sneg()) != G2Point::Infinity,
        sproject(g2_pt(5, 72, 16, 44).sadd(g2_pt(65, 87, 47, 11).sneg())) == col_point(28),
{
    lemma_g2_diff_at((5, 72), (16, 44), (65, 87), (47, 11), 37, 88);
    crate::pairing_values::lemma_distort_4();
    crate::pairing_values::lemma_distort_10();
    crate::pairing_values::lemma_g1_neg_at(26, 56);
    crate::pairing_values::lemma_g1_add_at((18, 52), (26, 45), (0, 8, 38, 3, 37, -3, 12, 13, 69, 1));
}

proof fn lemma_w_4_11()
    ensures
        g2_pt(5, 72, 16, 44).add_defined(g2_pt(61, 30, 84, 76).sneg()),
        g2_pt(5, 72, 16, 44).sadd(g2_pt(61, 30, 84, 76).sneg()) != G2Point::Infinity,
        sproject(g2_pt(5, 72, 16, 44).sadd(g2_pt(61, 30, 84, 76).sneg())) == col_point(27),
{
    lemma_g2_diff_at((5, 72), (16, 44), (61, 30), (84, 76), 48, 52);
    crate::pairing_values::lemma_distort_4();
    crate::pairing_values::lemma_distort_11();
    crate::pairing_values::lemma_g1_neg_at(58, 36);
    crate::pairing_values::lemma_g1_add_at((18, 52), (58, 65), (0, 40, 48, 19, 18, 6, 46, 2, 50, -6));
}

proof fn lemma_w_4_12()
    ensures
        g2_pt(5, 72, 16, 44).add_defined(g2_pt(29, 87, 70, 40).sneg()),
        g2_pt(5, 72, 16, 44).sadd(g2_pt(29, 87, 70, 40).sneg()) != G2Point::Infinity,
        sproject(g2_pt(5, 72, 16, 44).sadd(g2_pt(29, 87, 70, 40).sneg())) == col_point(26),
{
    lemma_g2_diff_at((5, 72), (16, 44), (29, 87), (70, 40), 7, 94);
    crate::pairing_values::lemma_distort_4();
    crate::pairing_values::lemma_distort_12();
    crate::pairing_values::lemma_g1_neg_at(91, 66);
    crate::pairing_values::lemma_g1_add_at((18, 52), (91, 35), (0, 73, 18, 13, 98, -4, 1, 94, 99, 15));
}

proof fn lemma_w_4_13()
    ensures
        g2_pt(5, 72, 16, 44).add_defined(g2_pt(4, 46, 3, 36).sneg()),
        g2_pt(5, 72, 16, 44).sadd(g2_pt(4, 46, 3, 36).sneg()) != G2Point::Infinity,
        sproject(g2_pt(5, 72, 16, 44).sadd(g2_pt(4, 46, 3, 36).sneg())) == col_point(25),
{
    lemma_g2_diff_at((5, 72), (16, 44), (4, 46), (3, 36), 6, 71);
    crate::pairing_values::lemma_distort_4();
    crate::pairing_values::lemma_distort_13();
    crate::pairing_values::lemma_g1_neg_at(60, 60);
    crate::pairing_values::lemma_g1_add_at((18, 52), (60, 41), (0, 42, 89, 37, 31, -10, 75, 8, 100, -19));
}

proof fn lemma_w_4_14()
    ensures
        g2_pt(5, 72, 16, 44).add_defined(g2_pt(42, 100, 84, 16).sneg()),
        g2_pt(5, 72, 16, 44).sadd(g2_pt(42, 100, 84, 16).sneg()) != G2Point::Infinity,
        sproject(g2_pt(5, 72, 16, 44).sadd(g2_pt(42, 100, 84, 16).sneg())) == col_point(24),
{
    lemma_g2_diff_at((5, 72), (16, 44), (42, 100), (84, 16), 21, 32);
    crate::pairing_values::lemma_distort_4();
    crate::pairing_values::lemma_distort_14();
    crate::pairing_values::lemma_g1_neg_at(32, 42);
    crate::pairing_values::lemma_g1_add_at((18, 52), (32, 59), (0, 14, 65, 9, 51, 4, 26, 25, 45, -5));
}

proof fn lemma_w_4_15()
    ensures
        g2_pt(5, 72, 16, 44).add_defined(g2_pt(71, 14, 32, 68).sneg()),
        g2_pt(5, 72, 16, 44).sadd(g2_pt(71, 14, 32, 68).sneg()) != G2Point::Infinity,
        sproject(g2_pt(5, 72, 16, 44).sadd(g2_pt(71, 14, 32, 68).sneg())) == col_point(23),
{
    lemma_g2_diff_at((5, 72), (16, 44), (71, 14), (32, 68), 76, 44);
    crate::pairing_values::lemma_distort_4();
    crate::pairing_values::lemma_distort_15();
    crate::pairing_values::lemma_g1_neg_at(9, 5);
    crate::pairing_values::lemma_g1_add_at((18, 52), (9, 96), (-1, 92, 56, 51, 40, 24, 58, 15, 65, -17));
}

proof fn lemma_w_4_16()
    ensures
        g2_pt(5, 72, 16, 44).add_defined(g2_pt(93, 48, 94, 99).sneg()),
        g2_pt(5, 72, 16, 44).sadd(g2_pt(93, 48, 94, 99).sneg()) != G2Point::Infinity,
        sproject(g2_pt(5, 72, 16, 44).sadd(g2_pt(93, 48, 94, 99).sneg())) == col_point(22),
{
    lemma_g2_diff_at((5, 72), (16, 44), (93, 48), (94, 99), 82, 38);
    crate::pairing_values::lemma_distort_4();
    crate::pairing_values::lemma_distort_16();
    crate::pairing_values::lemma_g1_neg_at(68, 74);
    crate::pairing_values::lemma_g1_add_at((18, 52), (68, 27), (0, 50, 99, 49, 50, -25, 91, 23, 35, -37));
}

proof fn lemma_w_5_1()
    ensures
        g2_pt(69, 33, 71, 86).add_defined(g2_pt(0, 3, 9, 49).sneg()),
        g2_pt(69, 33, 71, 86).sadd(g2_pt(0, 3, 9, 49).sneg()) != G2Point::Infinity,
        sproject(g2_pt(69, 33, 71, 86).sadd(g2_pt(0, 3, 9, 49).sneg())) == col_point(4),
{
    lemma_g2_diff_at((69, 33), (71, 86), (0, 3), (9, 49), 56, 5);
    crate::pairing_values::lemma_distort_5();
    crate::pairing_values::lemma_distort_1();
    crate::pairing_values::lemma_g1_neg_at(30, 95);
    crate::pairing_values::lemma_g1_add_at((96, 22), (30, 6), (-1, 35, 26, 9, 89, -5, 18, 77, 52, 68));
}

proof fn lemma_w_5_2()
    ensures
        g2_pt(69, 33, 71, 86).add_defined(g2_pt(38, 33, 61, 75).sneg()),
        g2_pt(69, 33, 71, 86).sadd(g2_pt(38, 33, 61, 75).sneg()) != G2Point::Infinity,
        sproject(g2_pt(69, 33, 71, 86).sadd(g2_pt(38, 33, 61, 75).sneg())) == col_point(3),
{
    lemma_g2_diff_at((69, 33), (71, 86), (38, 33), (61, 75), 9, 52);
    crate::pairing_values::lemma_distort_5();
    crate::pairing_values::lemma_distort_2();
    crate::pairing_values::lemma_g1_neg_at(65, 3);
    crate::pairing_values::lemma_g1_add_at((96, 22), (65, 98), (-1, 70, 13, 9, 79, 9, 20, 60, 23, 59));
}

proof fn lemma_w_5_3()
    ensures
        g2_pt(69, 33, 71, 86).add_defined(g2_pt(19, 91, 88, 44).sneg()),
        g2_pt(69, 33, 71, 86).sadd(g2_pt(19, 91, 88, 44).sneg()) != G2Point::Infinity,
        sproject(g2_pt(69, 33, 71, 86).sadd(g2_pt(19, 91, 88, 44).sneg())) == col_point(2),
{
    lemma_g2_diff_at((69, 33), (71, 86), (19, 91), (88, 44), 58, 6);
    crate::pairing_values::lemma_distort_5();
    crate::pairing_values::lemma_distort_3();
    crate::pairing_values::lemma_g1_neg_at(20, 23);
    crate::pairing_values::lemma_g1_add_at((96, 22), (20, 78), (-1, 25, 97, 24, 79, 53, 65, 60, 3, 24));
}

proof fn lemma_w_5_4()
    ensures
        g2_pt(69, 33, 71, 86).add_defined(g2_pt(5, 72, 16, 44).sneg()),
        g2_pt(69, 33, 71, 86).sadd(g2_pt(5, 72, 16, 44).sneg()) != G2Point::Infinity,
        sproject(g2_pt(69, 33, 71, 86).sadd(g2_pt(5, 72, 16, 44).sneg())) == col_point(1),
{
    lemma_g2_diff_at((69, 33), (71, 86), (5, 72), (16, 44), 55, 62);
    crate::pairing_values::lemma_distort_5();
    crate::pairing_values::lemma_distort_4();
    crate::pairing_values::lemma_g1_neg_at(18, 52);
    crate::pairing_values::lemma_g1_add_at((96, 22), (18, 49), (-1, 23, 22, 5, 89, 5, 30, 77, 95, 57));
}

proof fn lemma_w_5_6()
    ensures
        g2_pt(69, 33, 71, 86).add_defined(g2_pt(57, 46, 17, 52).sneg()),
        g2_pt(69, 33, 71, 86).sadd(g2_pt(57, 46, 17, 52).sneg()) != G2Point::Infinity,
        sproject(g2_pt(69, 33, 71, 86).sadd(g2_pt(57, 46, 17, 52).sneg())) == col_point(33),
{
    lemma_g2_diff_at((69, 33), (71, 86), (57, 46), (17, 52), 3, 10);
    crate::pairing_values::lemma_distort_5();
    crate::pairing_values::lemma_distort_6();
    crate::pairing_values::lemma_g1_neg_at(12, 32);
    crate::pairing_values::lemma_g1_add_at((96, 22), (12, 69), (-1, 17, 6, 1, 80, 2, 30, 62, 6, 52));
}

proof fn lemma_w_5_7()
    ensures
        g2_pt(69, 33, 71, 86).add_defined(g2_pt(81, 47, 93, 16).sneg()),
        g2_pt(69, 33, 71, 86).sadd(g2_pt(81, 47, 93, 16).sneg()) != G2Point::Infinity,
        sproject(g2_pt(69, 33, 71, 86).sadd(g2_pt(81, 47, 93, 16).sneg())) == col_point(32),
{
    lemma_g2_diff_at((69, 33), (71, 86), (81, 47), (93, 16), 3, 37);
    crate::pairing_values::lemma_distort_5();
    crate::pairing_values::lemma_distort_7();
    crate::pairing_values::lemma_g1_neg_at(46, 51);
    crate::pairing_values::lemma_g1_add_at((96, 22), (46, 50), (-1, 51, 2, 1, 56, 0, 65, 29, 98, 16));
}

proof fn lemma_w_5_8()
    ensures
        g2_pt(69, 33, 71, 86).add_defined(g2_pt(18, 69, 94, 11).sneg()),
        g2_pt(69, 33, 71, 86).sadd(g2_pt(18, 69, 94, 11).sneg()) != G2Point::Infinity,
        sproject(g2_pt(69, 33, 71, 86).sadd(g2_pt(18, 69, 94, 11).sneg())) == col_point(31),
{
    lemma_g2_diff_at((69, 33), (71, 86), (18, 69), (94, 11), 38, 59);
    crate::pairing_values::lemma_distort_5();
    crate::pairing_values::lemma_distort_8();
    crate::pairing_values::lemma_g1_neg_at(1, 2);
    crate::pairing_values::lemma_g1_add_at((96, 22), (1, 99), (-1, 6, 17, 1, 97, 12, 20, 92, 78, 72));
}

proof fn lemma_w_5_9()
    ensures
        g2_pt(69, 33, 71, 86).add_defined(g2_pt(83, 80, 84, 22).sneg()),
        g2_pt(69, 33, 71, 86).sadd(g2_pt(83, 80, 84, 22).sneg()) != G2Point::Infinity,
        sproject(g2_pt(69, 33, 71, 86).sadd(g2_pt(83, 80, 84, 22).sneg())) == col_point(30),
{
    lemma_g2_diff_at((69, 33), (71, 86), (83, 80), (84, 22), 23, 82);
    crate::pairing_values::lemma_distort_5();
    crate::pairing_values::lemma_distort_9();
    crate::pairing_values::lemma_g1_neg_at(75, 1);
    crate::pairing_values::lemma_g1_add_at((96, 22), (75, 100), (-1, 80, 24, 19, 54, 18, 18, 27, 49, 41));
}

proof fn lemma_w_5_10()
    ensures
        g2_pt(69, 33, 71, 86).add_defined(g2_pt(65, 87, 47, 11).sneg()),
        g2_pt(69, 33, 71, 86).sadd(g2_pt(65, 87, 47, 11).sneg()) != G2Point::Infinity,
        sproject(g2_pt(69, 33, 71, 86).sadd(g2_pt(65, 87, 47, 11).sneg())) == col_point(29),
{
    lemma_g2_diff_at((69, 33), (71, 86), (65, 87), (47, 11), 29, 3);
    crate::pairing_values::lemma_distort_5();
    crate::pairing_values::lemma_distort_10();
    crate::pairing_values::lemma_g1_neg_at(26, 56);
    crate::pairing_values::lemma_g1_add_at((96, 22), (26, 45), (-1, 31, 88, 27, 4, 20, 96, -2, 79, -1));
}

proof fn lemma_w_5_11()
    ensures
        g2_pt(69, 33, 71, 86).add_defined(g2_pt(61, 30, 84, 76).sneg()),
        g2_pt(69, 33, 71, 86).sadd(g2_pt(61, 30, 84, 76).sneg()) != G2Point::Infinity,
        sproject(g2_pt(69, 33, 71, 86).sadd(g2_pt(61, 30, 84, 76).sneg())) == col_point(28),
{
    lemma_g2_diff_at((69, 33), (71, 86), (61, 30), (84, 76), 0, 73);
    crate::pairing_values::lemma_distort_5();
    crate::pairing_values::lemma_distort_11();
    crate::pairing_values::lemma_g1_neg_at(58, 36);
    crate::pairing_values::lemma_g1_add_at((96, 22), (58, 65), (-1, 63, 93, 58, 60, 39, 12, 34, 69, 49));
}

proof fn lemma_w_5_12()
    ensures
        g2_pt(69, 33, 71, 86).add_defined(g2_pt(29, 87, 70, 40).sneg()),
        g2_pt(69, 33, 71, 86).sadd(g2_pt(29, 87, 70, 40).sneg()) != G2Point::Infinity,
        sproject(g2_pt(69, 33, 71, 86).sadd(g2_pt(29, 87, 70, 40).sneg())) == col_point(27),
{
    lemma_g2_diff_at((69, 33), (71, 86), (29, 87), (70, 40), 44, 72);
    crate::pairing_values::lemma_distort_5();
    crate::pairing_values::lemma_distort_12();
    crate::pairing_values::lemma_g1_neg_at(91, 66);
    crate::pairing_values::lemma_g1_add_at((96, 22), (91, 35), (-1, 96, 20, 19, 58, 2, 46, 31, 50, 28));
}

proof fn lemma_w_5_13()
    ensures
        g2_pt(69, 33, 71, 86).add_defined(g2_pt(4, 46, 3, 36).sneg()),
        g2_pt(69, 33, 71, 86).sadd(g2_pt(4, 46, 3, 36).sneg()) != G2Point::Infinity,
        sproject(g2_pt(69, 33, 71, 86).sadd(g2_pt(4, 46, 3, 36).sneg())) == col_point(26),
{
    lemma_g2_diff_at((69, 33), (71, 86), (4, 46), (3, 36), 43, 51);
    crate::pairing_values::lemma_distort_5();
    crate::pairing_values::lemma_distort_13();
    crate::pairing_values::lemma_g1_neg_at(60, 60);
    crate::pairing_values::lemma_g1_add_at((96, 22), (60, 41), (-1, 65, 14, 9, 64, 2, 1, 39, 99, 59));
}

proof fn lemma_w_5_14()
    ensures
        g2_pt(69, 33, 71, 86).add_defined(g2_pt(42, 100, 84, 16).sneg()),
        g2_pt(69, 33, 71, 86).sadd(g2_pt(42, 100, 84, 16).sneg()) != G2Point::Infinity,
        sproject(g2_pt(69, 33, 71, 86).sadd(g2_pt(42, 100, 84, 16).sneg())) == col_point(25),
{
    lemma_g2_diff_at((69, 33), (71, 86), (42, 100), (84, 16), 51, 67);
    crate::pairing_values::lemma_distort_5();
    crate::pairing_values::lemma_distort_14();
    crate::pairing_values::lemma_g1_neg_at(32, 42);
    crate::pairing_values::lemma_g1_add_at((96, 22), (32, 59), (-1, 37, 71, 26, 1, 26, 75, -2, 100, -1));
}

proof fn lemma_w_5_15()
    ensures
        g2_pt(69, 33, 71, 86).add_defined(g2_pt(71, 14, 32, 68).sneg()),
        g2_pt(69, 33, 71, 86).sadd(g2_pt(71, 14, 32, 68).sneg()) != G2Point::Infinity,
        sproject(g2_pt(69, 33, 71, 86).sadd(g2_pt(71, 14, 32, 68).sneg())) == col_point(24),
{
    lemma_g2_diff_at((69, 33), (71, 86), (71, 14), (32, 68), 3, 62);
    crate::pairing_values::lemma_distort_5();
    crate::pairing_values::lemma_distort_15();
    crate::pairing_values::lemma_g1_neg_at(9, 5);
    crate::pairing_values::lemma_g1_add_at((96, 22), (9, 96), (-1, 14, 65, 9, 63, 47, 26, 38, 45, 43));
}

proof fn lemma_w_5_16()
    ensures
        g2_pt(69, 33, 71, 86).add_defined(g2_pt(93, 48, 94, 99).sneg()),
        g2_pt(69, 33, 71, 86).sadd(g2_pt(93, 48, 94, 99).sneg()) != G2Point::Infinity,
        sproject(g2_pt(69, 33, 71, 86).sadd(g2_pt(93, 48, 94, 99).sneg())) == col_point(23),
{
    lemma_g2_diff_at((69, 33), (71, 86), (93, 48), (94, 99), 7, 94);
    crate::pairing_values::lemma_distort_5();
    crate::pairing_values::lemma_distort_16();
    crate::pairing_values::lemma_g1_neg_at(68, 74);
    crate::pairing_values::lemma_g1_add_at((96, 22), (68, 27), (-1, 73, 18, 13, 90, 0, 58, 78, 65, 33));
}

proof fn lemma_w_6_1()
    ensures
        g2_pt(57, 46, 17, 52).add_defined(g2_pt(0, 3, 9, 49).sneg()),
        g2_pt(57, 46, 17, 52).sadd(g2_pt(0, 3, 9, 49).sneg()) != G2Point::Infinity,
        sproject(g2_pt(57, 46, 17, 52).sadd(g2_pt(0, 3, 9, 49).sneg())) == col_point(5),
{
    lemma_g2_diff_at((57, 46), (17, 52), (0, 3), (9, 49), 50, 48);
    crate::pairing_values::lemma_distort_6();
    crate::pairing_values::lemma_distort_1();
    crate::pairing_values::lemma_g1_neg_at(30, 95);
    crate::pairing_values::lemma_g1_add_at((12, 32), (30, 6), (0, 18, 73, 13, 21, -19, 96, 3, 22, -18));
}

proof fn lemma_w_6_2()
    ensures
        g2_pt(57, 46, 17, 52).add_defined(g2_pt(38, 33, 61, 75).sneg()),
        g2_pt(57, 46, 17, 52).sadd(g2_pt(38, 33, 61, 75).sneg()) != G2Point::Infinity,
        sproject(g2_pt(57, 46, 17, 52).sadd(g2_pt(38, 33, 61, 75).sneg())) == col_point(4),
{
    lemma_g2_diff_at((57, 46), (17, 52), (38, 33), (61, 75), 5, 25);
    crate::pairing_values::lemma_distort_6();
    crate::pairing_values::lemma_distort_2();
    crate::pairing_values::lemma_g1_neg_at(65, 3);
    crate::pairing_values::lemma_g1_add_at((12, 32), (65, 98), (0, 53, 61, 32, 87, 39, 18, 74, 52, -6));
}

proof fn lemma_w_6_3()
    ensures
        g2_pt(57, 46, 17, 52).add_defined(g2_pt(19, 91, 88, 44).sneg()),
        g2_pt(57, 46, 17, 52).sadd(g2_pt(19, 91, 88, 44).sneg()) != G2Point::Infinity,
        sproject(g2_pt(57, 46, 17, 52).sadd(g2_pt(19, 91, 88, 44).sneg())) == col_point(3),
{
    lemma_g2_diff_at((57, 46), (17, 52), (19, 91), (88, 44), 34, 35);
    crate::pairing_values::lemma_distort_6();
    crate::pairing_values::lemma_distort_3();
    crate::pairing_values::lemma_g1_neg_at(20, 23);
    crate::pairing_values::lemma_g1_add_at((12, 32), (20, 78), (0, 8, 38, 3, 31, 17, 20, 9, 23, -3));
}

proof fn lemma_w_6_4()
    ensures
        g2_pt(57, 46, 17, 52).add_defined(g2_pt(5, 72, 16, 44).sneg()),
        g2_pt(57, 46, 17, 52).sadd(g2_pt(5, 72, 16, 44).sneg()) != G2Point::Infinity,
        sproject(g2_pt(57, 46, 17, 52).sadd(g2_pt(5, 72, 16, 44).sneg())) == col_point(2),
{
    lemma_g2_diff_at((57, 46), (17, 52), (5, 72), (16, 44), 33, 47);
    crate::pairing_values::lemma_distort_6();
    crate::pairing_values::lemma_distort_4();
    crate::pairing_values::lemma_g1_neg_at(18, 52);
    crate::pairing_values::lemma_g1_add_at((12, 32), (18, 49), (0, 6, 17, 1, 87, 2, 65, 74, 3, -46));
}

proof fn lemma_w_6_5()
    ensures
        g2_pt(57, 46, 17, 52).add_defined(g2_pt(69, 33, 71, 86).sneg()),
        g2_pt(57, 46, 17, 52).sadd(g2_pt(69, 33, 71, 86).sneg()) != G2Point::Infinity,
        sproject(g2_pt(57, 46, 17, 52).sadd(g2_pt(69, 33, 71, 86).sneg())) == col_point(1),
{
    lemma_g2_diff_at((57, 46), (17, 52), (69, 33), (71, 86), 3, 10);
    crate::pairing_values::lemma_distort_6();
    crate::pairing_values::lemma_distort_5();
    crate::pairing_values::lemma_g1_neg_at(96, 22);
    crate::pairing_values::lemma_g1_add_at((12, 32), (96, 79), (0, 84, 95, 79, 21, 44, 30, 3, 95, -5));
}

proof fn lemma_w_6_7()
    ensures
        g2_pt(57, 46, 17, 52).add_defined(g2_pt(81, 47, 93, 16).sneg()),
        g2_pt(57, 46, 17, 52).sadd(g2_pt(81, 47, 93, 16).sneg()) != G2Point::Infinity,
        sproject(g2_pt(57, 46, 17, 52).sadd(g2_pt(81, 47, 93, 16).sneg())) == col_point(33),
{
    lemma_g2_diff_at((57, 46), (17, 52), (81, 47), (93, 16), 5, 72);
    crate::pairing_values::lemma_distort_6();
    crate::pairing_values::lemma_distort_7();
    crate::pairing_values::lemma_g1_neg_at(46, 51);
    crate::pairing_values::lemma_g1_add_at((12, 32), (46, 50), (0, 34, 3, 1, 54, 0, 30, 28, 6, -10));
}

proof fn lemma_w_6_8()
    ensures
        g2_pt(57, 46, 17, 52).add_defined(g2_pt(18, 69, 94, 11).sneg()),
        g2_pt(57, 46, 17, 52).sadd(g2_pt(18, 69, 94, 11).sneg()) != G2Point::Infinity,
        sproject(g2_pt(57, 46, 17, 52).sadd(g2_pt(18, 69, 94, 11).sneg())) == col_point(32),
{
    lemma_g2_diff_at((57, 46), (17, 52), (18, 69), (94, 11), 20, 30);
    crate::pairing_values::lemma_distort_6();
    crate::pairing_values::lemma_distort_8();
    crate::pairing_values::lemma_g1_neg_at(1, 2);
    crate::pairing_values::lemma_g1_add_at((12, 32), (1, 99), (-1, 90, 55, 49, 49, 36, 65, 23, 98, -27));
}

proof fn lemma_w_6_9()
    ensures
        g2_pt(57, 46, 17, 52).add_defined(g2_pt(83, 80, 84, 22).sneg()),
        g2_pt(57, 46, 17, 52).sadd(g2_pt(83, 80, 84, 22).sneg()) != G2Point::Infinity,
        sproject(g2_pt(57, 46, 17, 52).sadd(g2_pt(83, 80, 84, 22).sneg())) == col_point(31),
{
    lemma_g2_diff_at((57, 46), (17, 52), (83, 80), (84, 22), 18, 14);
    crate::pairing_values::lemma_distort_6();
    crate::pairing_values::lemma_distort_9();
    crate::pairing_values::lemma_g1_neg_at(75, 1);
    crate::pairing_values::lemma_g1_add_at((12, 32), (75, 100), (0, 63, 93, 58, 62, 62, 20, 37, 78, -6));
}

proof fn lemma_w_6_10()
    ensures
        g2_pt(57, 46, 17, 52).add_defined(g2_pt(65, 87, 47, 11).sneg()),
        g2_pt(57, 46, 17, 52).sadd(g2_pt(65, 87, 47, 11).sneg()) != G2Point::Infinity,
        sproject(g2_pt(57, 46, 17, 52).sadd(g2_pt(65, 87, 47, 11).sneg())) == col_point(30),
{
    lemma_g2_diff_at((57, 46), (17, 52), (65, 87), (47, 11), 17, 28);
    crate::pairing_values::lemma_distort_6();
    crate::pairing_values::lemma_distort_10();
    crate::pairing_values::lemma_g1_neg_at(26, 56);
    crate::pairing_values::lemma_g1_add_at((12, 32), (26, 45), (0, 14, 65, 9, 37, 8, 18, 13, 49, -3));
}

proof fn lemma_w_6_11()
    ensures
        g2_pt(57, 46, 17, 52).add_defined(g2_pt(61, 30, 84, 76).sneg()),
        g2_pt(57, 46, 17, 52).sadd(g2_pt(61, 30, 84, 76).sneg()) != G2Point::Infinity,
        sproject(g2_pt(57, 46, 17, 52).sadd(g2_pt(61, 30, 84, 76).sneg())) == col_point(29),
{
    lemma_g2_diff_at((57, 46), (17, 52), (61, 30), (84, 76), 2, 70);
    crate::pairing_values::lemma_distort_6();
    crate::pairing_values::lemma_distort_11();
    crate::pairing_values::lemma_g1_neg_at(58, 36);
    crate::pairing_values::lemma_g1_add_at((12, 32), (58, 65), (0, 46, 11, 5, 60, 3, 96, 34, 79, -51));
}

proof fn lemma_w_6_12()
    ensures
        g2_pt(57, 46, 17, 52).add_defined(g2_pt(29, 87, 70, 40).sneg()),
        g2_pt(57, 46, 17, 52).sadd(g2_pt(29, 87, 70, 40).sneg()) != G2Point::Infinity,
        sproject(g2_pt(57, 46, 17, 52).sadd(g2_pt(29, 87, 70, 40).sneg())) == col_point(28),
{
    lemma_g2_diff_at((57, 46), (17, 52), (29, 87), (70, 40), 24, 41);
    crate::pairing_values::lemma_distort_6();
    crate::pairing_values::lemma_distort_12();
    crate::pairing_values::lemma_g1_neg_at(91, 66);
    crate::pairing_values::lemma_g1_add_at((12, 32), (91, 35), (0, 79, 78, 61, 32, 2, 12, 9, 69, -1));
}

proof fn lemma_w_6_13()
    ensures
        g2_pt(57, 46, 17, 52).add_defined(g2_pt(4, 46, 3, 36).sneg()),
        g2_pt(57, 46, 17, 52).sadd(g2_pt(4, 46, 3, 36).sneg()) != G2Point::Infinity,
        sproject(g2_pt(57, 46, 17, 52).sadd(g2_pt(4, 46, 3, 36).sneg())) == col_point(27),
{
    lemma_g2_diff_at((57, 46), (17, 52), (4, 46), (3, 36), 27, 82);
    crate::pairing_values::lemma_distort_6();
    crate::pairing_values::lemma_distort_13();
    crate::pairing_values::lemma_g1_neg_at(60, 60);
    crate::pairing_values::lemma_g1_add_at((12, 32), (60, 41), (0, 48, 40, 19, 57, 3, 46, 31, 50, -20));
}

proof fn lemma_w_6_14()
    ensures
        g2_pt(57, 46, 17, 52).add_defined(g2_pt(42, 100, 84, 16).sneg()),
        g2_pt(57, 46, 17, 52).sadd(g2_pt(42, 100, 84, 16).sneg()) != G2Point::Infinity,
        sproject(g2_pt(57, 46, 17, 52).sadd(g2_pt(42, 100, 84, 16).sneg())) == col_point(26),
{
    lemma_g2_diff_at((57, 46), (17, 52), (42, 100), (84, 16), 31, 10);
    crate::pairing_values::lemma_distort_6();
    crate::pairing_values::lemma_distort_14();
    crate::pairing_values::lemma_g1_neg_at(32, 42);
    crate::pairing_values::lemma_g1_add_at((12, 32), (32, 59), (0, 20, 96, 19, 67, 25, 1, 44, 99, 6));
}

proof fn lemma_w_6_15()
    ensures
        g2_pt(57, 46, 17, 52).add_defined(g2_pt(71, 14, 32, 68).sneg()),
        g2_pt(57, 46, 17, 52).sadd(g2_pt(71, 14, 32, 68).sneg()) != G2Point::Infinity,
        sproject(g2_pt(57, 46, 17, 52).sadd(g2_pt(71, 14, 32, 68).sneg())) == col_point(25),
{
    lemma_g2_diff_at((57, 46), (17, 52), (71, 14), (32, 68), 12, 8);
    crate::pairing_values::lemma_distort_6();
    crate::pairing_values::lemma_distort_15();
    crate::pairing_values::lemma_g1_neg_at(9, 5);
    crate::pairing_values::lemma_g1_add_at((12, 32), (9, 96), (-1, 98, 67, 65, 46, 42, 75, 20, 100, -30));
}

proof fn lemma_w_6_16()
    ensures
        g2_pt(57, 46, 17, 52).add_defined(g2_pt(93, 48, 94, 99).sneg()),
        g2_pt(57, 46, 17, 52).sadd(g2_pt(93, 48, 94, 99).sneg()) != G2Point::Infinity,
        sproject(g2_pt(57, 46, 17, 52).sadd(g2_pt(93, 48, 94, 99).sneg())) == col_point(24),
{
    lemma_g2_diff_at((57, 46), (17, 52), (93, 48), (94, 99), 12, 88);
    crate::pairing_values::lemma_distort_6();
    crate::pairing_values::lemma_distort_16();
    crate::pairing_values::lemma_g1_neg_at(68, 74);
    crate::pairing_values::lemma_g1_add_at((12, 32), (68, 27), (0, 56, 92, 51, 45, -5, 26, 19, 45, -7));
}

proof fn lemma_w_7_1()
    ensures
        g2_pt(81, 47, 93, 16).add_defined(g2_pt(0, 3, 9, 49).sneg()),
        g2_pt(81, 47, 93, 16).sadd(g2_pt(0, 3, 9, 49).sneg()) != G2Point::Infinity,
        sproject(g2_pt(81, 47, 93, 16).sadd(g2_pt(0, 3, 9, 49).sneg())) == col_point(6),
{
    lemma_g2_diff_at((81, 47), (93, 16), (0, 3), (9, 49), 84, 13);
    crate::pairing_values::lemma_distort_7();
    crate::pairing_values::lemma_distort_1();
    crate::pairing_values::lemma_g1_neg_at(30, 95);
    crate::pairing_values::lemma_g1_add_at((46, 51), (30, 6), (-1, 85, 82, 69, 47, -37, 12, 21, 32, 15));
}

proof fn lemma_w_7_2()
    ensures
        g2_pt(81, 47, 93, 16).add_defined(g2_pt(38, 33, 61, 75).sneg()),
        g2_pt(81, 47, 93, 16).sadd(g2_pt(38, 33, 61, 75).sneg()) != G2Point::Infinity,
        sproject(g2_pt(81, 47, 93, 16).sadd(g2_pt(38, 33, 61, 75).sneg())) == col_point(5),
{
    lemma_g2_diff_at((81, 47), (93, 16), (38, 33), (61, 75), 20, 25);
    crate::pairing_values::lemma_distort_7();
    crate::pairing_values::lemma_distort_2();
    crate::pairing_values::lemma_g1_neg_at(65, 3);
    crate::pairing_values::lemma_g1_add_at((46, 51), (65, 98), (0, 19, 16, 3, 45, 7, 96, 18, 22, -23));
}

proof fn lemma_w_7_3()
    ensures
        g2_pt(81, 47, 93, 16).add_defined(g2_pt(19, 91, 88, 44).sneg()),
        g2_pt(81, 47, 93, 16).sadd(g2_pt(19, 91, 88, 44).sneg()) != G2Point::Infinity,
        sproject(g2_pt(81, 47, 93, 16).sadd(g2_pt(19, 91, 88, 44).sneg())) == col_point(4),
{
    lemma_g2_diff_at((81, 47), (93, 16), (19, 91), (88, 44), 57, 23);
    crate::pairing_values::lemma_distort_7();
    crate::pairing_values::lemma_distort_3();
    crate::pairing_values::lemma_g1_neg_at(20, 23);
    crate::pairing_values::lemma_g1_add_at((46, 51), (20, 78), (-1, 75, 66, 49, 65, 17, 18, 41, 52, 17));
}

proof fn lemma_w_7_4()
    ensures
        g2_pt(81, 47, 93, 16).add_defined(g2_pt(5, 72, 16, 44).sneg()),
        g2_pt(81, 47, 93, 16).sadd(g2_pt(5, 72, 16, 44).sneg()) != G2Point::Infinity,
        sproject(g2_pt(81, 47, 93, 16).sadd(g2_pt(5, 72, 16, 44).sneg())) == col_point(3),
{
    lemma_g2_diff_at((81, 47), (93, 16), (5, 72), (16, 44), 63, 38);
    crate::pairing_values::lemma_distort_7();
    crate::pairing_values::lemma_distort_4();
    crate::pairing_values::lemma_g1_neg_at(18, 52);
    crate::pairing_values::lemma_g1_add_at((46, 51), (18, 49), (-1, 73, 18, 13, 65, -1, 20, 41, 23, 16));
}

proof fn lemma_w_7_5()
    ensures
        g2_pt(81, 47, 93, 16).add_defined(g2_pt(69, 33, 71, 86).sneg()),
        g2_pt(81, 47, 93, 16).sadd(g2_pt(69, 33, 71, 86).sneg()) != G2Point::Infinity,
        sproject(g2_pt(81, 47, 93, 16).sadd(g2_pt(69, 33, 71, 86).sneg())) == col_point(2),
{
    lemma_g2_diff_at((81, 47), (93, 16), (69, 33), (71, 86), 3, 37);
    crate::pairing_values::lemma_distort_7();
    crate::pairing_values::lemma_distort_5();
    crate::pairing_values::lemma_g1_neg_at(96, 22);
    crate::pairing_values::lemma_g1_add_at((46, 51), (96, 79), (0, 50, 99, 49, 45, 27, 65, 18, 3, -9));
}

proof fn lemma_w_7_6()
    ensures
        g2_pt(81, 47, 93, 16).add_defined(g2_pt(57, 46, 17, 52).sneg()),
        g2_pt(81, 47, 93, 16).sadd(g2_pt(57, 46, 17, 52).sneg()) != G2Point::Infinity,
        sproject(g2_pt(81, 47, 93, 16).sadd(g2_pt(57, 46, 17, 52).sneg())) == col_point(1),
{
    lemma_g2_diff_at((81, 47), (93, 16), (57, 46), (17, 52), 5, 72);
    crate::pairing_values::lemma_distort_7();
    crate::pairing_values::lemma_distort_6();
    crate::pairing_values::lemma_g1_neg_at(12, 32);
    crate::pairing_values::lemma_g1_add_at((46, 51), (12, 69), (-1, 67, 98, 65, 47, 17, 30, 21, 95, 6));
}

proof fn lemma_w_7_8()
    ensures
        g2_pt(81, 47, 93, 16).add_defined(g2_pt(18, 69, 94, 11).sneg()),
        g2_pt(81, 47, 93, 16).sadd(g2_pt(18, 69, 94, 11).sneg()) != G2Point::Infinity,
        sproject(g2_pt(81, 47, 93, 16).sadd(g2_pt(18, 69, 94, 11).sneg())) == col_point(33),
{
    lemma_g2_diff_at((81, 47), (93, 16), (18, 69), (94, 11), 44, 9);
    crate::pairing_values::lemma_distort_7();
    crate::pairing_values::lemma_distort_8();
    crate::pairing_values::lemma_g1_neg_at(1, 2);
    crate::pairing_values::lemma_g1_add_at((46, 51), (1, 99), (-1, 56, 92, 51, 73, 43, 30, 52, 6, 11));
}

proof fn lemma_w_7_9()
    ensures
        g2_pt(81, 47, 93, 16).add_defined(g2_pt(83, 80, 84, 22).sneg()),
        g2_pt(81, 47, 93, 16).sadd(g2_pt(83, 80, 84, 22).sneg()) != G2Point::Infinity,
        sproject(g2_pt(81, 47, 93, 16).sadd(g2_pt(83, 80, 84, 22).sneg())) == col_point(32),
{
    lemma_g2_diff_at((81, 47), (93, 16), (83, 80), (84, 22), 10, 83);
    crate::pairing_values::lemma_distort_7();
    crate::pairing_values::lemma_distort_9();
    crate::pairing_values::lemma_g1_neg_at(75, 1);
    crate::pairing_values::lemma_g1_add_at((46, 51), (75, 100), (0, 29, 7, 2, 40, 3, 65, 14, 98, -9));
}

proof fn lemma_w_7_10()
    ensures
        g2_pt(81, 47, 93, 16).add_defined(g2_pt(65, 87, 47, 11).sneg()),
        g2_pt(81, 47, 93, 16).sadd(g2_pt(65, 87, 47, 11).sneg()) != G2Point::Infinity,
        sproject(g2_pt(81, 47, 93, 16).sadd(g2_pt(65, 87, 47, 11).sneg())) == col_point(31),
{
    lemma_g2_diff_at((81, 47), (93, 16), (65, 87), (47, 11), 18, 38);
    crate::pairing_values::lemma_distort_7();
    crate::pairing_values::lemma_distort_10();
    crate::pairing_values::lemma_g1_neg_at(26, 56);
    crate::pairing_values::lemma_g1_add_at((46, 51), (26, 45), (-1, 81, 5, 4, 71, -1, 20, 49, 78, 17));
}

proof fn lemma_w_7_11()
    ensures
        g2_pt(81, 47, 93, 16).add_defined(g2_pt(61, 30, 84, 76).sneg()),
        g2_pt(81, 47, 93, 16).sadd(g2_pt(61, 30, 84, 76).sneg()) != G2Point::Infinity,
        sproject(g2_pt(81, 47, 93, 16).sadd(g2_pt(61, 30, 84, 76).sneg())) == col_point(30),
{
    lemma_g2_diff_at((81, 47), (93, 16), (61, 30), (84, 76), 6, 83);
    crate::pairing_values::lemma_distort_7();
    crate::pairing_values::lemma_distort_11();
    crate::pairing_values::lemma_g1_neg_at(58, 36);
    crate::pairing_values::lemma_g1_add_at((46, 51), (58, 65), (0, 12, 59, 7, 18, 8, 18, 2, 49, 4));
}

proof fn lemma_w_7_12()
    ensures
        g2_pt(81, 47, 93, 16).add_defined(g2_pt(29, 87, 70, 40).sneg()),
        g2_pt(81, 47, 93, 16).sadd(g2_pt(29, 87, 70, 40).sneg()) != G2Point::Infinity,
        sproject(g2_pt(81, 47, 93, 16).sadd(g2_pt(29, 87, 70, 40).sneg())) == col_point(29),
{
    lemma_g2_diff_at((81, 47), (93, 16), (29, 87), (70, 40), 42, 62);
    crate::pairing_values::lemma_distort_7();
    crate::pairing_values::lemma_distort_12();
    crate::pairing_values::lemma_g1_neg_at(91, 66);
    crate::pairing_values::lemma_g1_add_at((46, 51), (91, 35), (0, 45, 9, 4, 58, -2, 96, 31, 79, -30));
}

proof fn lemma_w_7_13()
    ensures
        g2_pt(81, 47, 93, 16).add_defined(g2_pt(4, 46, 3, 36).sneg()),
        g2_pt(81, 47, 93, 16).sadd(g2_pt(4, 46, 3, 36).sneg()) != G2Point::Infinity,
        sproject(g2_pt(81, 47, 93, 16).sadd(g2_pt(4, 46, 3, 36).sneg())) == col_point(28),
{
    lemma_g2_diff_at((81, 47), (93, 16), (4, 46), (3, 36), 58, 72);
    crate::pairing_values::lemma_distort_7();
    crate::pairing_values::lemma_distort_13();
    crate::pairing_values::lemma_g1_neg_at(60, 60);
    crate::pairing_values::lemma_g1_add_at((46, 51), (60, 41), (0, 14, 65, 9, 57, -7, 12, 31, 69, 18));
}

proof fn lemma_w_7_14()
    ensures
        g2_pt(81, 47, 93, 16).add_defined(g2_pt(42, 100, 84, 16).sneg()),
        g2_pt(81, 47, 93, 16).sadd(g2_pt(42, 100, 84, 16).sneg()) != G2Point::Infinity,
        sproject(g2_pt(81, 47, 93, 16).sadd(g2_pt(42, 100, 84, 16).sneg())) == col_point(27),
{
    lemma_g2_diff_at((81, 47), (93, 16), (42, 100), (84, 16), 42, 88);
    crate::pairing_values::lemma_distort_7();
    crate::pairing_values::lemma_distort_14();
    crate::pairing_values::lemma_g1_neg_at(32, 42);
    crate::pairing_values::lemma_g1_add_at((46, 51), (32, 59), (-1, 87, 36, 31, 86, 2, 46, 72, 50, -1));
}

proof fn lemma_w_7_15()
    ensures
        g2_pt(81, 47, 93, 16).add_defined(g2_pt(71, 14, 32, 68).sneg()),
        g2_pt(81, 47, 93, 16).sadd(g2_pt(71, 14, 32, 68).sneg()) != G2Point::Infinity,
        sproject(g2_pt(81, 47, 93, 16).sadd(g2_pt(71, 14, 32, 68).sneg())) == col_point(26),
{
    lemma_g2_diff_at((81, 47), (93, 16), (71, 14), (32, 68), 11, 78);
    crate::pairing_values::lemma_distort_7();
    crate::pairing_values::lemma_distort_15();
    crate::pairing_values::lemma_g1_neg_at(9, 5);
    crate::pairing_values::lemma_g1_add_at((46, 51), (9, 96), (-1, 64, 30, 19, 37, 13, 1, 13, 99, 15));
}

proof fn lemma_w_7_16()
    ensures
        g2_pt(81, 47, 93, 16).add_defined(g2_pt(93, 48, 94, 99).sneg()),
        g2_pt(81, 47, 93, 16).sadd(g2_pt(93, 48, 94, 99).sneg()) != G2Point::Infinity,
        sproject(g2_pt(81, 47, 93, 16).sadd(g2_pt(93, 48, 94, 99).sneg())) == col_point(25),
{
    lemma_g2_diff_at((81, 47), (93, 16), (93, 48), (94, 99), 1, 44);
    crate::pairing_values::lemma_distort_7();
    crate::pairing_values::lemma_distort_16();
    crate::pairing_values::lemma_g1_neg_at(68, 74);
    crate::pairing_values::lemma_g1_add_at((46, 51), (68, 27), (0, 22, 23, 5, 54, -6, 75, 27, 100, -17));
}

proof fn lemma_w_8_1()
    ensures
        g2_pt(18, 69, 94, 11).add_defined(g2_pt(0, 3, 9, 49).sneg()),
        g2_pt(18, 69, 94, 11).sadd(g2_pt(0, 3, 9, 49).sneg()) != G2Point::Infinity,
        sproject(g2_pt(18, 69, 94, 11).sadd(g2_pt(0, 3, 9, 49).sneg())) == col_point(7),
{
    lemma_g2_diff_at((18, 69), (94, 11), (0, 3), (9, 49), 46, 34);
    crate::pairing_values::lemma_distort_8();
    crate::pairing_values::lemma_distort_1();
    crate::pairing_values::lemma_g1_neg_at(30, 95);
    crate::pairing_values::lemma_g1_add_at((1, 2), (30, 6), (0, 29, 7, 2, 28, 0, 46, 7, 51, -13));
}

proof fn lemma_w_8_2()
    ensures
        g2_pt(18, 69, 94, 11).add_defined(g2_pt(38, 33, 61, 75).sneg()),
        g2_pt(18, 69, 94, 11).sadd(g2_pt(38, 33, 61, 75).sneg()) != G2Point::Infinity,
        sproject(g2_pt(18, 69, 94, 11).sadd(g2_pt(38, 33, 61, 75).sneg())) == col_point(6),
{
    lemma_g2_diff_at((18, 69), (94, 11), (38, 33), (61, 75), 16, 80);
    crate::pairing_values::lemma_distort_8();
    crate::pairing_values::lemma_distort_2();
    crate::pairing_values::lemma_g1_neg_at(65, 3);
    crate::pairing_values::lemma_g1_add_at((1, 2), (65, 98), (0, 64, 30, 19, 52, 28, 12, 26, 32, -6));
}

proof fn lemma_w_8_3()
    ensures
        g2_pt(18, 69, 94, 11).add_defined(g2_pt(19, 91, 88, 44).sneg()),
        g2_pt(18, 69, 94, 11).sadd(g2_pt(19, 91, 88, 44).sneg()) != G2Point::Infinity,
        sproject(g2_pt(18, 69, 94, 11).sadd(g2_pt(19, 91, 88, 44).sneg())) == col_point(5),
{
    lemma_g2_diff_at((18, 69), (94, 11), (19, 91), (88, 44), 4, 81);
    crate::pairing_values::lemma_distort_8();
    crate::pairing_values::lemma_distort_3();
    crate::pairing_values::lemma_g1_neg_at(20, 23);
    crate::pairing_values::lemma_g1_add_at((1, 2), (20, 78), (0, 19, 16, 3, 4, 12, 96, -1, 22, -4));
}

proof fn lemma_w_8_4()
    ensures
        g2_pt(18, 69, 94, 11).add_defined(g2_pt(5, 72, 16, 44).sneg()),
        g2_pt(18, 69, 94, 11).sadd(g2_pt(5, 72, 16, 44).sneg()) != G2Point::Infinity,
        sproject(g2_pt(18, 69, 94, 11).sadd(g2_pt(5, 72, 16, 44).sneg())) == col_point(4),
{
    lemma_g2_diff_at((18, 69), (94, 11), (5, 72), (16, 44), 1, 77);
    crate::pairing_values::lemma_distort_8();
    crate::pairing_values::lemma_distort_4();
    crate::pairing_values::lemma_g1_neg_at(18, 52);
    crate::pairing_values::lemma_g1_add_at((1, 2), (18, 49), (0, 17, 6, 1, 80, 2, 18, 63, 52, -14));
}

proof fn lemma_w_8_5()
    ensures
        g2_pt(18, 69, 94, 11).add_defined(g2_pt(69, 33, 71, 86).sneg()),
        g2_pt(18, 69, 94, 11).sadd(g2_pt(69, 33, 71, 86).sneg()) != G2Point::Infinity,
        sproject(g2_pt(18, 69, 94, 11).sadd(g2_pt(69, 33, 71, 86).sneg())) == col_point(3),
{
    lemma_g2_diff_at((18, 69), (94, 11), (69, 33), (71, 86), 38, 59);
    crate::pairing_values::lemma_distort_8();
    crate::pairing_values::lemma_distort_5();
    crate::pairing_values::lemma_g1_neg_at(96, 22);
    crate::pairing_values::lemma_g1_add_at((1, 2), (96, 79), (0, 95, 84, 79, 4, 64, 20, -1, 23, -1));
}

proof fn lemma_w_8_6()
    ensures
        g2_pt(18, 69, 94, 11).add_defined(g2_pt(57, 46, 17, 52).sneg()),
        g2_pt(18, 69, 94, 11).sadd(g2_pt(57, 46, 17, 52).sneg()) != G2Point::Infinity,
        sproject(g2_pt(18, 69, 94, 11).sadd(g2_pt(57, 46, 17, 52).sneg())) == col_point(2),
{
    lemma_g2_diff_at((18, 69), (94, 11), (57, 46), (17, 52), 20, 30);
    crate::pairing_values::lemma_distort_8();
    crate::pairing_values::lemma_distort_6();
    crate::pairing_values::lemma_g1_neg_at(12, 32);
    crate::pairing_values::lemma_g1_add_at((1, 2), (12, 69), (0, 11, 46, 5, 52, 30, 65, 26, 3, -33));
}

proof fn lemma_w_8_7()
    ensures
        g2_pt(18, 69, 94, 11).add_defined(g2_pt(81, 47, 93, 16).sneg()),
        g2_pt(18, 69, 94, 11).sadd(g2_pt(81, 47, 93, 16).sneg()) != G2Point::Infinity,
        sproject(g2_pt(18, 69, 94, 11).sadd(g2_pt(81, 47, 93, 16).sneg())) == col_point(1),
{
    lemma_g2_diff_at((18, 69), (94, 11), (81, 47), (93, 16), 44, 9);
    crate::pairing_values::lemma_distort_8();
    crate::pairing_values::lemma_distort_7();
    crate::pairing_values::lemma_g1_neg_at(46, 51);
    crate::pairing_values::lemma_g1_add_at((1, 2), (46, 50), (0, 45, 9, 4, 28, 4, 30, 7, 95, -9));
}

proof fn lemma_w_8_9()
    ensures
        g2_pt(18, 69, 94, 11).add_defined(g2_pt(83, 80, 84, 22).sneg()),
        g2_pt(18, 69, 94, 11).sadd(g2_pt(83, 80, 84, 22).sneg()) != G2Point::Infinity,
        sproject(g2_pt(18, 69, 94, 11).sadd(g2_pt(83, 80, 84, 22).sneg())) == col_point(33),
{
    lemma_g2_diff_at((18, 69), (94, 11), (83, 80), (84, 22), 43, 3);
    crate::pairing_values::lemma_distort_8();
    crate::pairing_values::lemma_distort_9();
    crate::pairing_values::lemma_g1_neg_at(75, 1);
    crate::pairing_values::lemma_g1_add_at((1, 2), (75, 100), (0, 74, 86, 63, 45, 83, 30, 19, 6, -13));
}

proof fn lemma_w_8_10()
    ensures
        g2_pt(18, 69, 94, 11).add_defined(g2_pt(65, 87, 47, 11).sneg()),
        g2_pt(18, 69, 94, 11).sadd(g2_pt(65, 87, 47, 11).sneg()) != G2Point::Infinity,
        sproject(g2_pt(18, 69, 94, 11).sadd(g2_pt(65, 87, 47, 11).sneg())) == col_point(32),
{
    lemma_g2_diff_at((18, 69), (94, 11), (65, 87), (47, 11), 25, 8);
    crate::pairing_values::lemma_distort_8();
    crate::pairing_values::lemma_distort_10();
    crate::pairing_values::lemma_g1_neg_at(26, 56);
    crate::pairing_values::lemma_g1_add_at((1, 2), (26, 45), (0, 25, 97, 24, 30, 41, 65, 8, 98, -20));
}

proof fn lemma_w_8_11()
    ensures
        g2_pt(18, 69, 94, 11).add_defined(g2_pt(61, 30, 84, 76).sneg()),
        g2_pt(18, 69, 94, 11).sadd(g2_pt(61, 30, 84, 76).sneg()) != G2Point::Infinity,
        sproject(g2_pt(18, 69, 94, 11).sadd(g2_pt(61, 30, 84, 76).sneg())) == col_point(31),
{
    lemma_g2_diff_at((18, 69), (94, 11), (61, 30), (84, 76), 33, 37);
    crate::pairing_values::lemma_distort_8();
    crate::pairing_values::lemma_distort_11();
    crate::pairing_values::lemma_g1_neg_at(58, 36);
    crate::pairing_values::lemma_g1_add_at((1, 2), (58, 65), (0, 57, 39, 22, 33, 24, 20, 10, 78, -7));
}

proof fn lemma_w_8_12()
    ensures
        g2_pt(18, 69, 94, 11).add_defined(g2_pt(29, 87, 70, 40).sneg()),
        g2_pt(18, 69, 94, 11).sadd(g2_pt(29, 87, 70, 40).sneg()) != G2Point::Infinity,
        sproject(g2_pt(18, 69, 94, 11).sadd(g2_pt(29, 87, 70, 40).sneg())) == col_point(30),
{
    lemma_g2_diff_at((18, 69), (94, 11), (29, 87), (70, 40), 4, 41);
    crate::pairing_values::lemma_distort_8();
    crate::pairing_values::lemma_distort_12();
    crate::pairing_values::lemma_g1_neg_at(91, 66);
    crate::pairing_values::lemma_g1_add_at((1, 2), (91, 35), (0, 90, 55, 49, 98, 17, 18, 94, 49, -17));
}

proof fn lemma_w_8_13()
    ensures
        g2_pt(18, 69, 94, 11).add_defined(g2_pt(4, 46, 3, 36).sneg()),
        g2_pt(18, 69, 94, 11).sadd(g2_pt(4, 46, 3, 36).sneg()) != G2Point::Infinity,
        sproject(g2_pt(18, 69, 94, 11).sadd(g2_pt(4, 46, 3, 36).sneg())) == col_point(29),
{
    lemma_g2_diff_at((18, 69), (94, 11), (4, 46), (3, 36), 7, 18);
    crate::pairing_values::lemma_distort_8();
    crate::pairing_values::lemma_distort_13();
    crate::pairing_values::lemma_g1_neg_at(60, 60);
    crate::pairing_values::lemma_g1_add_at((1, 2), (60, 41), (0, 59, 12, 7, 64, 4, 96, 39, 79, -61));
}

proof fn lemma_w_8_14()
    ensures
        g2_pt(18, 69, 94, 11).add_defined(g2_pt(42, 100, 84, 16).sneg()),
        g2_pt(18, 69, 94, 11).sadd(g2_pt(42, 100, 84, 16).sneg()) != G2Point::Infinity,
        sproject(g2_pt(18, 69, 94, 11).sadd(g2_pt(42, 100, 84, 16).sneg())) == col_point(28),
{
    lemma_g2_diff_at((18, 69), (94, 11), (42, 100), (84, 16), 15, 22);
    crate::pairing_values::lemma_distort_8();
    crate::pairing_values::lemma_distort_14();
    crate::pairing_values::lemma_g1_neg_at(32, 42);
    crate::pairing_values::lemma_g1_add_at((1, 2), (32, 59), (0, 31, 88, 27, 67, 49, 12, 44, 69, -8));
}

proof fn lemma_w_8_15()
    ensures
        g2_pt(18, 69, 94, 11).add_defined(g2_pt(71, 14, 32, 68).sneg()),
        g2_pt(18, 69, 94, 11).sadd(g2_pt(71, 14, 32, 68).sneg()) != G2Point::Infinity,
        sproject(g2_pt(18, 69, 94, 11).sadd(g2_pt(71, 14, 32, 68).sneg())) == col_point(27),
{
    lemma_g2_diff_at((18, 69), (94, 11), (71, 14), (32, 68), 57, 77);
    crate::pairing_values::lemma_distort_8();
    crate::pairing_values::lemma_distort_15();
    crate::pairing_values::lemma_g1_neg_at(9, 5);
    crate::pairing_values::lemma_g1_add_at((1, 2), (9, 96), (0, 8, 38, 3, 37, 35, 46, 13, 50, -17));
}

proof fn lemma_w_8_16()
    ensures
        g2_pt(18, 69, 94, 11).add_defined(g2_pt(93, 48, 94, 99).sneg()),
        g2_pt(18, 69, 94, 11).sadd(g2_pt(93, 48, 94, 99).sneg()) != G2Point::Infinity,
        sproject(g2_pt(18, 69, 94, 11).sadd(g2_pt(93, 48, 94, 99).sneg())) == col_point(26),
{
    lemma_g2_diff_at((18, 69), (94, 11), (93, 48), (94, 99), 60, 6);
    crate::pairing_values::lemma_distort_8();
    crate::pairing_values::lemma_distort_16();
    crate::pairing_values::lemma_g1_neg_at(68, 74);
    crate::pairing_values::lemma_g1_add_at((1, 2), (68, 27), (0, 67, 98, 65, 26, 24, 1, 6, 99, -1));
}

proof fn lemma_w_9_1()
    ensures
        g2_pt(83, 80, 84, 22).add_defined(g2_pt(0, 3, 9, 49).sneg()),
        g2_pt(83, 80, 84, 22).sadd(g2_pt(0, 3, 9, 49).sneg()) != G2Point::Infinity,
        sproject(g2_pt(83, 80, 84, 22).sadd(g2_pt(0, 3, 9, 49).sneg())) == col_point(8),
{
    lemma_g2_diff_at((83, 80), (84, 22), (0, 3), (9, 49), 126, 92);
    crate::pairing_values::lemma_distort_9();
    crate::pairing_values::lemma_distort_1();
    crate::pairing_values::lemma_g1_neg_at(30, 95);
    crate::pairing_values::lemma_g1_add_at((75, 1), (30, 6), (-1, 56, 92, 51, 56, 4, 1, 30, 2, 41));
}

proof fn lemma_w_9_2()
    ensures
        g2_pt(83, 80, 84, 22).add_defined(g2_pt(38, 33, 61, 75).sneg()),
        g2_pt(83, 80, 84, 22).sadd(g2_pt(38, 33, 61, 75).sneg()) != G2Point::Infinity,
        sproject(g2_pt(83, 80, 84, 22).sadd(g2_pt(38, 33, 61, 75).sneg())) == col_point(7),
{
    lemma_g2_diff_at((83, 80), (84, 22), (38, 33), (61, 75), 41, 93);
    crate::pairing_values::lemma_distort_9();
    crate::pairing_values::lemma_distort_2();
    crate::pairing_values::lemma_g1_neg_at(65, 3);
    crate::pairing_values::lemma_g1_add_at((75, 1), (65, 98), (-1, 91, 10, 9, 61, 9, 46, 35, 51, 17));
}

proof fn lemma_w_9_3()
    ensures
        g2_pt(83, 80, 84, 22).add_defined(g2_pt(19, 91, 88, 44).sneg()),
        g2_pt(83, 80, 84, 22).sadd(g2_pt(19, 91, 88, 44).sneg()) != G2Point::Infinity,
        sproject(g2_pt(83, 80, 84, 22).sadd(g2_pt(19, 91, 88, 44).sneg())) == col_point(6),
{
    lemma_g2_diff_at((83, 80), (84, 22), (19, 91), (88, 44), 41, 76);
    crate::pairing_values::lemma_distort_9();
    crate::pairing_values::lemma_distort_3();
    crate::pairing_values::lemma_g1_neg_at(20, 23);
    crate::pairing_values::lemma_g1_add_at((75, 1), (20, 78), (-1, 46, 11, 5, 39, 8, 12, 14, 32, 24));
}

proof fn lemma_w_9_4()
    ensures
        g2_pt(83, 80, 84, 22).add_defined(g2_pt(5, 72, 16, 44).sneg()),
        g2_pt(83, 80, 84, 22).sadd(g2_pt(5, 72, 16, 44).sneg()) != G2Point::Infinity,
        sproject(g2_pt(83, 80, 84, 22).sadd(g2_pt(5, 72, 16, 44).sneg())) == col_point(5),
{
    lemma_g2_diff_at((83, 80), (84, 22), (5, 72), (16, 44), 60, 88);
    crate::pairing_values::lemma_distort_9();
    crate::pairing_values::lemma_distort_4();
    crate::pairing_values::lemma_g1_neg_at(18, 52);
    crate::pairing_values::lemma_g1_add_at((75, 1), (18, 49), (-1, 44, 62, 27, 47, 29, 96, 20, 22, -10));
}

proof fn lemma_w_9_5()
    ensures
        g2_pt(83, 80, 84, 22).add_defined(g2_pt(69, 33, 71, 86).sneg()),
        g2_pt(83, 80, 84, 22).sadd(g2_pt(69, 33, 71, 86).sneg()) != G2Point::Infinity,
        sproject(g2_pt(83, 80, 84, 22).sadd(g2_pt(69, 33, 71, 86).sneg())) == col_point(4),
{
    lemma_g2_diff_at((83, 80), (84, 22), (69, 33), (71, 86), 23, 82);
    crate::pairing_values::lemma_distort_9();
    crate::pairing_values::lemma_distort_5();
    crate::pairing_values::lemma_g1_neg_at(96, 22);
    crate::pairing_values::lemma_g1_add_at((75, 1), (96, 79), (0, 21, 77, 16, 47, 59, 18, 20, 52, 26));
}

proof fn lemma_w_9_6()
    ensures
        g2_pt(83, 80, 84, 22).add_defined(g2_pt(57, 46, 17, 52).sneg()),
        g2_pt(83, 80, 84, 22).sadd(g2_pt(57, 46, 17, 52).sneg()) != G2Point::Infinity,
        sproject(g2_pt(83, 80, 84, 22).sadd(g2_pt(57, 46, 17, 52).sneg())) == col_point(3),
{
    lemma_g2_diff_at((83, 80), (84, 22), (57, 46), (17, 52), 18, 14);
    crate::pairing_values::lemma_distort_9();
    crate::pairing_values::lemma_distort_6();
    crate::pairing_values::lemma_g1_neg_at(12, 32);
    crate::pairing_values::lemma_g1_add_at((75, 1), (12, 69), (-1, 38, 8, 3, 39, 5, 20, 14, 23, 21));
}

proof fn lemma_w_9_7()
    ensures
        g2_pt(83, 80, 84, 22).add_defined(g2_pt(81, 47, 93, 16).sneg()),
        g2_pt(83, 80, 84, 22).sadd(g2_pt(81, 47, 93, 16).sneg()) != G2Point::Infinity,
        sproject(g2_pt(83, 80, 84, 22).sadd(g2_pt(81, 47, 93, 16).sneg())) == col_point(2),
{
    lemma_g2_diff_at((83, 80), (84, 22), (81, 47), (93, 16), 10, 83);
    crate::pairing_values::lemma_distort_9();
    crate::pairing_values::lemma_distort_7();
    crate::pairing_values::lemma_g1_neg_at(46, 51);
    crate::pairing_values::lemma_g1_add_at((75, 1), (46, 50), (-1, 72, 94, 67, 61, 45, 65, 35, 3, 6));
}

proof fn lemma_w_9_8()
    ensures
        g2_pt(83, 80, 84, 22).add_defined(g2_pt(18, 69, 94, 11).sneg()),
        g2_pt(83, 80, 84, 22).sadd(g2_pt(18, 69, 94, 11).sneg()) != G2Point::Infinity,
        sproject(g2_pt(83, 80, 84, 22).sadd(g2_pt(18, 69, 94, 11).sneg())) == col_point(1),
{
    lemma_g2_diff_at((83, 80), (84, 22), (18, 69), (94, 11), 43, 3);
    crate::pairing_values::lemma_distort_9();
    crate::pairing_values::lemma_distort_8();
    crate::pairing_values::lemma_g1_neg_at(1, 2);
    crate::pairing_values::lemma_g1_add_at((75, 1), (1, 99), (-1, 27, 15, 4, 56, 14, 30, 30, 95, 24));
}

proof fn lemma_w_9_10()
    ensures
        g2_pt(83, 80, 84, 22).add_defined(g2_pt(65, 87, 47, 11).sneg()),
        g2_pt(83, 80, 84, 22).sadd(g2_pt(65, 87, 47, 11).sneg()) != G2Point::Infinity,
        sproject(g2_pt(83, 80, 84, 22).sadd(g2_pt(65, 87, 47, 11).sneg())) == col_point(33),
{
    lemma_g2_diff_at((83, 80), (84, 22), (65, 87), (47, 11), 3, 70);
    crate::pairing_values::lemma_distort_9();
    crate::pairing_values::lemma_distort_10();
    crate::pairing_values::lemma_g1_neg_at(26, 56);
    crate::pairing_values::lemma_g1_add_at((75, 1), (26, 45), (-1, 52, 68, 35, 63, 29, 30, 38, 6, 28));
}

proof fn lemma_w_9_11()
    ensures
        g2_pt(83, 80, 84, 22).add_defined(g2_pt(61, 30, 84, 76).sneg()),
        g2_pt(83, 80, 84, 22).sadd(g2_pt(61, 30, 84, 76).sneg()) != G2Point::Infinity,
        sproject(g2_pt(83, 80, 84, 22).sadd(g2_pt(61, 30, 84, 76).sneg())) == col_point(32),
{
    lemma_g2_diff_at((83, 80), (84, 22), (61, 30), (84, 76), 29, 55);
    crate::pairing_values::lemma_distort_9();
    crate::pairing_values::lemma_distort_11();
    crate::pairing_values::lemma_g1_neg_at(58, 36);
    crate::pairing_values::lemma_g1_add_at((75, 1), (58, 65), (-1, 84, 95, 79, 20, 60, 65, 2, 98, 1));
}

proof fn lemma_w_9_12()
    ensures
        g2_pt(83, 80, 84, 22).add_defined(g2_pt(29, 87, 70, 40).sneg()),
        g2_pt(83, 80, 84, 22).sadd(g2_pt(29, 87, 70, 40).sneg()) != G2Point::Infinity,
        sproject(g2_pt(83, 80, 84, 22).sadd(g2_pt(29, 87, 70, 40).sneg())) == col_point(31),
{
    lemma_g2_diff_at((83, 80), (84, 22), (29, 87), (70, 40), 29, 36);
    crate::pairing_values::lemma_distort_9();
    crate::pairing_values::lemma_distort_12();
    crate::pairing_values::lemma_g1_neg_at(91, 66);
    crate::pairing_values::lemma_g1_add_at((75, 1), (91, 35), (0, 16, 19, 3, 40, 6, 20, 14, 78, 21));
}

proof fn lemma_w_9_13()
    ensures
        g2_pt(83, 80, 84, 22).add_defined(g2_pt(4, 46, 3, 36).sneg()),
        g2_pt(83, 80, 84, 22).sadd(g2_pt(4, 46, 3, 36).sneg()) != G2Point::Infinity,
        sproject(g2_pt(83, 80, 84, 22).sadd(g2_pt(4, 46, 3, 36).sneg())) == col_point(30),
{
    lemma_g2_diff_at((83, 80), (84, 22), (4, 46), (3, 36), 73, 24);
    crate::pairing_values::lemma_distort_9();
    crate::pairing_values::lemma_distort_13();
    crate::pairing_values::lemma_g1_neg_at(60, 60);
    crate::pairing_values::lemma_g1_add_at((75, 1), (60, 41), (-1, 86, 74, 63, 31, 29, 18, 8, 49, 17));
}

proof fn lemma_w_9_14()
    ensures
        g2_pt(83, 80, 84, 22).add_defined(g2_pt(42, 100, 84, 16).sneg()),
        g2_pt(83, 80, 84, 22).sadd(g2_pt(42, 100, 84, 16).sneg()) != G2Point::Infinity,
        sproject(g2_pt(83, 80, 84, 22).sadd(g2_pt(42, 100, 84, 16).sneg())) == col_point(29),
{
    lemma_g2_diff_at((83, 80), (84, 22), (42, 100), (84, 16), 20, 61);
    crate::pairing_values::lemma_distort_9();
    crate::pairing_values::lemma_distort_14();
    crate::pairing_values::lemma_g1_neg_at(32, 42);
    crate::pairing_values::lemma_g1_add_at((75, 1), (32, 59), (-1, 58, 54, 31, 1, 31, 96, -2, 79, -1));
}

proof fn lemma_w_9_15()
    ensures
        g2_pt(83, 80, 84, 22).add_defined(g2_pt(71, 14, 32, 68).sneg()),
        g2_pt(83, 80, 84, 22).sadd(g2_pt(71, 14, 32, 68).sneg()) != G2Point::Infinity,
        sproject(g2_pt(83, 80, 84, 22).sadd(g2_pt(71, 14, 32, 68).sneg())) == col_point(28),
{
    lemma_g2_diff_at((83, 80), (84, 22), (71, 14), (32, 68), 44, 56);
    crate::pairing_values::lemma_distort_9();
    crate::pairing_values::lemma_distort_15();
    crate::pairing_values::lemma_g1_neg_at(9, 5);
    crate::pairing_values::lemma_g1_add_at((75, 1), (9, 96), (-1, 35, 26, 9, 46, 24, 12, 20, 69, 28));
}

proof fn lemma_w_9_16()
    ensures
        g2_pt(83, 80, 84, 22).add_defined(g2_pt(93, 48, 94, 99).sneg()),
        g2_pt(83, 80, 84, 22).sadd(g2_pt(93, 48, 94, 99).sneg()) != G2Point::Infinity,
        sproject(g2_pt(83, 80, 84, 22).sadd(g2_pt(93, 48, 94, 99).sneg())) == col_point(27),
{
    lemma_g2_diff_at((83, 80), (84, 22), (93, 48), (94, 99), 11, 13);
    crate::pairing_values::lemma_distort_9();
    crate::pairing_values::lemma_distort_16();
    crate::pairing_values::lemma_g1_neg_at(68, 74);
    crate::pairing_values::lemma_g1_add_at((75, 1), (68, 27), (-1, 94, 72, 67, 54, 18, 46, 27, 50, 15));
}

proof fn lemma_w_10_1()
    ensures
        g2_pt(65, 87, 47, 11).add_defined(g2_pt(0, 3, 9, 49).sneg()),
        g2_pt(65, 87, 47, 11).sadd(g2_pt(0, 3, 9, 49).sneg()) != G2Point::Infinity,
        sproject(g2_pt(65, 87, 47, 11).sadd(g2_pt(0, 3, 9, 49).sneg())) == col_point(9),
{
    lemma_g2_diff_at((65, 87), (47, 11), (0, 3), (9, 49), 111, 70);
    crate::pairing_values::lemma_distort_10();
    crate::pairing_values::lemma_distort_1();
    crate::pairing_values::lemma_g1_neg_at(30, 95);
    crate::pairing_values::lemma_g1_add_at((26, 56), (30, 6), (0, 4, 76, 3, 38, -38, 75, 13, 1, -19));
}

proof fn lemma_w_10_2()
    ensures
        g2_pt(65, 87, 47, 11).add_defined(g2_pt(38, 33, 61, 75).sneg()),
        g2_pt(65, 87, 47, 11).sadd(g2_pt(38, 33, 61, 75).sneg()) != G2Point::Infinity,
        sproject(g2_pt(65, 87, 47, 11).sadd(g2_pt(38, 33, 61, 75).sneg())) == col_point(8),
{
    lemma_g2_diff_at((65, 87), (47, 11), (38, 33), (61, 75), 36, 9);
    crate::pairing_values::lemma_distort_10();
    crate::pairing_values::lemma_distort_2();
    crate::pairing_values::lemma_g1_neg_at(65, 3);
    crate::pairing_values::lemma_g1_add_at((26, 56), (65, 98), (0, 39, 57, 22, 71, 23, 1, 49, 2, 17));
}

proof fn lemma_w_10_3()
    ensures
        g2_pt(65, 87, 47, 11).add_defined(g2_pt(19, 91, 88, 44).sneg()),
        g2_pt(65, 87, 47, 11).sadd(g2_pt(19, 91, 88, 44).sneg()) != G2Point::Infinity,
        sproject(g2_pt(65, 87, 47, 11).sadd(g2_pt(19, 91, 88, 44).sneg())) == col_point(7),
{
    lemma_g2_diff_at((65, 87), (47, 11), (19, 91), (88, 44), 21, 11);
    crate::pairing_values::lemma_distort_10();
    crate::pairing_values::lemma_distort_3();
    crate::pairing_values::lemma_g1_neg_at(20, 23);
    crate::pairing_values::lemma_g1_add_at((26, 56), (20, 78), (-1, 95, 84, 79, 30, 18, 46, 8, 51, -7));
}

proof fn lemma_w_10_4()
    ensures
        g2_pt(65, 87, 47, 11).add_defined(g2_pt(5, 72, 16, 44).sneg()),
        g2_pt(65, 87, 47, 11).sadd(g2_pt(5, 72, 16, 44).sneg()) != G2Point::Infinity,
        sproject(g2_pt(65, 87, 47, 11).sadd(g2_pt(5, 72, 16, 44).sneg())) == col_point(6),
{
    lemma_g2_diff_at((65, 87), (47, 11), (5, 72), (16, 44), 37, 88);
    crate::pairing_values::lemma_distort_10();
    crate::pairing_values::lemma_distort_4();
    crate::pairing_values::lemma_g1_neg_at(18, 52);
    crate::pairing_values::lemma_g1_add_at((26, 56), (18, 49), (-1, 93, 63, 58, 64, -5, 12, 40, 32, 8));
}

proof fn lemma_w_10_5()
    ensures
        g2_pt(65, 87, 47, 11).add_defined(g2_pt(69, 33, 71, 86).sneg()),
        g2_pt(65, 87, 47, 11).sadd(g2_pt(69, 33, 71, 86).sneg()) != G2Point::Infinity,
        sproject(g2_pt(65, 87, 47, 11).sadd(g2_pt(69, 33, 71, 86).sneg())) == col_point(5),
{
    lemma_g2_diff_at((65, 87), (47, 11), (69, 33), (71, 86), 29, 3);
    crate::pairing_values::lemma_distort_10();
    crate::pairing_values::lemma_distort_5();
    crate::pairing_values::lemma_g1_neg_at(96, 22);
    crate::pairing_values::lemma_g1_add_at((26, 56), (96, 79), (0, 70, 13, 9, 97, 2, 96, 91, 22, -68));
}

proof fn lemma_w_10_6()
    ensures
        g2_pt(65, 87, 47, 11).add_defined(g2_pt(57, 46, 17, 52).sneg()),
        g2_pt(65, 87, 47, 11).sadd(g2_pt(57, 46, 17, 52).sneg()) != G2Point::Infinity,
        sproject(g2_pt(65, 87, 47, 11).sadd(g2_pt(57, 46, 17, 52).sneg())) == col_point(4),
{
    lemma_g2_diff_at((65, 87), (47, 11), (57, 46), (17, 52), 17, 28);
    crate::pairing_values::lemma_distort_10();
    crate::pairing_values::lemma_distort_6();
    crate::pairing_values::lemma_g1_neg_at(12, 32);
    crate::pairing_values::lemma_g1_add_at((26, 56), (12, 69), (-1, 87, 36, 31, 64, 4, 18, 40, 52, 4));
}

proof fn lemma_w_10_7()
    ensures
        g2_pt(65, 87, 47, 11).add_defined(g2_pt(81, 47, 93, 16).sneg()),
        g2_pt(65, 87, 47, 11).sadd(g2_pt(81, 47, 93, 16).sneg()) != G2Point::Infinity,
        sproject(g2_pt(65, 87, 47, 11).sadd(g2_pt(81, 47, 93, 16).sneg())) == col_point(3),
{
    lemma_g2_diff_at((65, 87), (47, 11), (81, 47), (93, 16), 18, 38);
    crate::pairing_values::lemma_distort_10();
    crate::pairing_values::lemma_distort_7();
    crate::pairing_values::lemma_g1_neg_at(46, 51);
    crate::pairing_values::lemma_g1_add_at((26, 56), (46, 50), (0, 20, 96, 19, 30, -6, 20, 8, 23, 1));
}

proof fn lemma_w_10_8()
    ensures
        g2_pt(65, 87, 47, 11).add_defined(g2_pt(18, 69, 94, 11).sneg()),
        g2_pt(65, 87, 47, 11).sadd(g2_pt(18, 69, 94, 11).sneg()) != G2Point::Infinity,
        sproject(g2_pt(65, 87, 47, 11).sadd(g2_pt(18, 69, 94, 11).sneg())) == col_point(2),
{
    lemma_g2_diff_at((65, 87), (47, 11), (18, 69), (94, 11), 25, 8);
    crate::pairing_values::lemma_distort_10();
    crate::pairing_values::lemma_distort_8();
    crate::pairing_values::lemma_g1_neg_at(1, 2);
    crate::pairing_values::lemma_g1_add_at((26, 56), (1, 99), (-1, 76, 4, 3, 71, 1, 65, 49, 3, -28));
}

proof fn lemma_w_10_9()
    ensures
        g2_pt(65, 87, 47, 11).add_defined(g2_pt(83, 80, 84, 22).sneg()),
        g2_pt(65, 87, 47, 11).sadd(g2_pt(83, 80, 84, 22).sneg()) != G2Point::Infinity,
        sproject(g2_pt(65, 87, 47, 11).sadd(g2_pt(83, 80, 84, 22).sneg())) == col_point(1),
{
    lemma_g2_diff_at((65, 87), (47, 11), (83, 80), (84, 22), 3, 70);
    crate::pairing_values::lemma_distort_10();
    crate::pairing_values::lemma_distort_9();
    crate::pairing_values::lemma_g1_neg_at(75, 1);
    crate::pairing_values::lemma_g1_add_at((26, 56), (75, 100), (0, 49, 33, 16, 38, 14, 30, 13, 95, -3));
}

proof fn lemma_w_10_11()
    ensures
        g2_pt(65, 87, 47, 11).add_defined(g2_pt(61, 30, 84, 76).sneg()),
        g2_pt(65, 87, 47, 11).sadd(g2_pt(61, 30, 84, 76).sneg()) != G2Point::Infinity,
        sproject(g2_pt(65, 87, 47, 11).sadd(g2_pt(61, 30, 84, 76).sneg())) == col_point(33),
{
    lemma_g2_diff_at((65, 87), (47, 11), (61, 30), (84, 76), 32, 33);
    crate::pairing_values::lemma_distort_10();
    crate::pairing_values::lemma_distort_11();
    crate::pairing_values::lemma_g1_neg_at(58, 36);
    crate::pairing_values::lemma_g1_add_at((26, 56), (58, 65), (0, 32, 60, 19, 35, 5, 30, 11, 6, -2));
}

proof fn lemma_w_10_12()
    ensures
        g2_pt(65, 87, 47, 11).add_defined(g2_pt(29, 87, 70, 40).sneg()),
        g2_pt(65, 87, 47, 11).sadd(g2_pt(29, 87, 70, 40).sneg()) != G2Point::Infinity,
        sproject(g2_pt(65, 87, 47, 11).sadd(g2_pt(29, 87, 70, 40).sneg())) == col_point(32),
{
    lemma_g2_diff_at((65, 87), (47, 11), (29, 87), (70, 40), 12, 84);
    crate::pairing_values::lemma_distort_10();
    crate::pairing_values::lemma_distort_12();
    crate::pairing_values::lemma_g1_neg_at(91, 66);
    crate::pairing_values::lemma_g1_add_at((26, 56), (91, 35), (0, 65, 14, 9, 9, -3, 65, -1, 98, -5));
}

proof fn lemma_w_10_13()
    ensures
        g2_pt(65, 87, 47, 11).add_defined(g2_pt(4, 46, 3, 36).sneg()),
        g2_pt(65, 87, 47, 11).sadd(g2_pt(4, 46, 3, 36).sneg()) != G2Point::Infinity,
        sproject(g2_pt(65, 87, 47, 11).sadd(g2_pt(4, 46, 3, 36).sneg())) == col_point(31),
{
    lemma_g2_diff_at((65, 87), (47, 11), (4, 46), (3, 36), 53, 49);
    crate::pairing_values::lemma_distort_10();
    crate::pairing_values::lemma_distort_13();
    crate::pairing_values::lemma_g1_neg_at(60, 60);
    crate::pairing_values::lemma_g1_add_at((26, 56), (60, 41), (0, 34, 3, 1, 56, -1, 20, 30, 78, 2));
}

proof fn lemma_w_10_14()
    ensures
        g2_pt(65, 87, 47, 11).add_defined(g2_pt(42, 100, 84, 16).sneg()),
        g2_pt(65, 87, 47, 11).sadd(g2_pt(42, 100, 84, 16).sneg()) != G2Point::Infinity,
        sproject(g2_pt(65, 87, 47, 11).sadd(g2_pt(42, 100, 84, 16).sneg())) == col_point(30),
{
    lemma_g2_diff_at((65, 87), (47, 11), (42, 100), (84, 16), 6, 92);
    crate::pairing_values::lemma_distort_10();
    crate::pairing_values::lemma_distort_14();
    crate::pairing_values::lemma_g1_neg_at(32, 42);
    crate::pairing_values::lemma_g1_add_at((26, 56), (32, 59), (0, 6, 17, 1, 51, 0, 18, 25, 49, 3));
}

proof fn lemma_w_10_15()
    ensures
        g2_pt(65, 87, 47, 11).add_defined(g2_pt(71, 14, 32, 68).sneg()),
        g2_pt(65, 87, 47, 11).sadd(g2_pt(71, 14, 32, 68).sneg()) != G2Point::Infinity,
        sproject(g2_pt(65, 87, 47, 11).sadd(g2_pt(71, 14, 32, 68).sneg())) == col_point(29),
{
    lemma_g2_diff_at((65, 87), (47, 11), (71, 14), (32, 68), 53, 12);
    crate::pairing_values::lemma_distort_10();
    crate::pairing_values::lemma_distort_15();
    crate::pairing_values::lemma_g1_neg_at(9, 5);
    crate::pairing_values::lemma_g1_add_at((26, 56), (9, 96), (-1, 84, 95, 79, 63, 37, 96, 38, 79, -45));
}

proof fn lemma_w_10_16()
    ensures
        g2_pt(65, 87, 47, 11).add_defined(g2_pt(93, 48, 94, 99).sneg()),
        g2_pt(65, 87, 47, 11).sadd(g2_pt(93, 48, 94, 99).sneg()) != G2Point::Infinity,
        sproject(g2_pt(65, 87, 47, 11).sadd(g2_pt(93, 48, 94, 99).sneg())) == col_point(28),
{
    lemma_g2_diff_at((65, 87), (47, 11), (93, 48), (94, 99), 22, 83);
    crate::pairing_values::lemma_distort_10();
    crate::pairing_values::lemma_distort_16();
    crate::pairing_values::lemma_g1_neg_at(68, 74);
    crate::pairing_values::lemma_g1_add_at((26, 56), (68, 27), (0, 42, 89, 37, 45, -26, 12, 19, 69, 5));
}

proof fn lemma_w_11_1()
    ensures
        g2_pt(61, 30, 84, 76).add_defined(g2_pt(0, 3, 9, 49).sneg()),
        g2_pt(61, 30, 84, 76).sadd(g2_pt(0, 3, 9, 49).sneg()) != G2Point::Infinity,
        sproject(g2_pt(61, 30, 84, 76).sadd(g2_pt(0, 3, 9, 49).sneg())) == col_point(10),
{
    lemma_g2_diff_at((61, 30), (84, 76), (0, 3), (9, 49), 44, 6);
    crate::pairing_values::lemma_distort_11();
    crate::pairing_values::lemma_distort_1();
    crate::pairing_values::lemma_g1_neg_at(30, 95);
    crate::pairing_values::lemma_g1_add_at((58, 36), (30, 6), (-1, 73, 18, 13, 66, -6, 26, 42, 56, 20));
}

proof fn lemma_w_11_2()
    ensures
        g2_pt(61, 30, 84, 76).add_defined(g2_pt(38, 33, 61, 75).sneg()),
        g2_pt(61, 30, 84, 76).sadd(g2_pt(38, 33, 61, 75).sneg()) != G2Point::Infinity,
        sproject(g2_pt(61, 30, 84, 76).sadd(g2_pt(38, 33, 61, 75).sneg())) == col_point(9),
{
    lemma_g2_diff_at((61, 30), (84, 76), (38, 33), (61, 75), 5, 33);
    crate::pairing_values::lemma_distort_11();
    crate::pairing_values::lemma_distort_2();
    crate::pairing_values::lemma_g1_neg_at(65, 3);
    crate::pairing_values::lemma_g1_add_at((58, 36), (65, 98), (0, 7, 29, 2, 81, 17, 75, 63, 1, -14));
}

proof fn lemma_w_11_3()
    ensures
        g2_pt(61, 30, 84, 76).add_defined(g2_pt(19, 91, 88, 44).sneg()),
        g2_pt(61, 30, 84, 76).sadd(g2_pt(19, 91, 88, 44).sneg()) != G2Point::Infinity,
        sproject(g2_pt(61, 30, 84, 76).sadd(g2_pt(19, 91, 88, 44).sneg())) == col_point(8),
{
    lemma_g2_diff_at((61, 30), (84, 76), (19, 91), (88, 44), 54, 31);
    crate::pairing_values::lemma_distort_11();
    crate::pairing_values::lemma_distort_3();
    crate::pairing_values::lemma_g1_neg_at(20, 23);
    crate::pairing_values::lemma_g1_add_at((58, 36), (20, 78), (-1, 63, 93, 58, 68, 38, 1, 45, 2, 38));
}

proof fn lemma_w_11_4()
    ensures
        g2_pt(61, 30, 84, 76).add_defined(g2_pt(5, 72, 16, 44).sneg()),
        g2_pt(61, 30, 84, 76).sadd(g2_pt(5, 72, 16, 44).sneg()) != G2Point::Infinity,
        sproject(g2_pt(61, 30, 84, 76).sadd(g2_pt(5, 72, 16, 44).sneg())) == col_point(7),
{
    lemma_g2_diff_at((61, 30), (84, 76), (5, 72), (16, 44), 48, 52);
    crate::pairing_values::lemma_distort_11();
    crate::pairing_values::lemma_distort_4();
    crate::pairing_values::lemma_g1_neg_at(18, 52);
    crate::pairing_values::lemma_g1_add_at((58, 36), (18, 49), (-1, 61, 53, 32, 83, 6, 46, 67, 51, 9));
}

proof fn lemma_w_11_5()
    ensures
        g2_pt(61, 30, 84, 76).add_defined(g2_pt(69, 33, 71, 86).sneg()),
        g2_pt(61, 30, 84, 76).sadd(g2_pt(69, 33, 71, 86).sneg()) != G2Point::Infinity,
        sproject(g2_pt(61, 30, 84, 76).sadd(g2_pt(69, 33, 71, 86).sneg())) == col_point(6),
{
    lemma_g2_diff_at((61, 30), (84, 76), (69, 33), (71, 86), 0, 73);
    crate::pairing_values::lemma_distort_11();
    crate::pairing_values::lemma_distort_5();
    crate::pairing_values::lemma_g1_neg_at(96, 22);
    crate::pairing_values::lemma_g1_add_at((58, 36), (96, 79), (0, 38, 8, 3, 41, 3, 12, 15, 32, 18));
}

proof fn lemma_w_11_6()
    ensures
        g2_pt(61, 30, 84, 76).add_defined(g2_pt(57, 46, 17, 52).sneg()),
        g2_pt(61, 30, 84, 76).sadd(g2_pt(57, 46, 17, 52).sneg()) != G2Point::Infinity,
        sproject(g2_pt(61, 30, 84, 76).sadd(g2_pt(57, 46, 17, 52).sneg())) == col_point(5),
{
    lemma_g2_diff_at((61, 30), (84, 76), (57, 46), (17, 52), 2, 70);
    crate::pairing_values::lemma_distort_11();
    crate::pairing_values::lemma_distort_6();
    crate::pairing_values::lemma_g1_neg_at(12, 32);
    crate::pairing_values::lemma_g1_add_at((58, 36), (12, 69), (-1, 55, 90, 49, 41, 29, 96, 15, 22, -16));
}

proof fn lemma_w_11_7()
    ensures
        g2_pt(61, 30, 84, 76).add_defined(g2_pt(81, 47, 93, 16).sneg()),
        g2_pt(61, 30, 84, 76).sadd(g2_pt(81, 47, 93, 16).sneg()) != G2Point::Infinity,
        sproject(g2_pt(61, 30, 84, 76).sadd(g2_pt(81, 47, 93, 16).sneg())) == col_point(4),
{
    lemma_g2_diff_at((61, 30), (84, 76), (81, 47), (93, 16), 6, 83);
    crate::pairing_values::lemma_distort_11();
    crate::pairing_values::lemma_distort_7();
    crate::pairing_values::lemma_g1_neg_at(46, 51);
    crate::pairing_values::lemma_g1_add_at((58, 36), (46, 50), (-1, 89, 42, 37, 83, 5, 18, 67, 52, 32));
}

proof fn lemma_w_11_8()
    ensures
        g2_pt(61, 30, 84, 76).add_defined(g2_pt(18, 69, 94, 11).sneg()),
        g2_pt(61, 30, 84, 76).sadd(g2_pt(18, 69, 94, 11).sneg()) != G2Point::Infinity,
        sproject(g2_pt(61, 30, 84, 76).sadd(g2_pt(18, 69, 94, 11).sneg())) == col_point(3),
{
    lemma_g2_diff_at((61, 30), (84, 76), (18, 69), (94, 11), 33, 37);
    crate::pairing_values::lemma_distort_11();
    crate::pairing_values::lemma_distort_8();
    crate::pairing_values::lemma_g1_neg_at(1, 2);
    crate::pairing_values::lemma_g1_add_at((58, 36), (1, 99), (-1, 44, 62, 27, 68, 38, 20, 45, 23, 25));
}

proof fn lemma_w_11_9()
    ensures
        g2_pt(61, 30, 84, 76).add_defined(g2_pt(83, 80, 84, 22).sneg()),
        g2_pt(61, 30, 84, 76).sadd(g2_pt(83, 80, 84, 22).sneg()) != G2Point::Infinity,
        sproject(g2_pt(61, 30, 84, 76).sadd(g2_pt(83, 80, 84, 22).sneg())) == col_point(2),
{
    lemma_g2_diff_at((61, 30), (84, 76), (83, 80), (84, 22), 29, 55);
    crate::pairing_values::lemma_distort_11();
    crate::pairing_values::lemma_distort_9();
    crate::pairing_values::lemma_g1_neg_at(75, 1);
    crate::pairing_values::lemma_g1_add_at((58, 36), (75, 100), (0, 17, 6, 1, 81, 3, 65, 63, 3, -6));
}

proof fn lemma_w_11_10()
    ensures
        g2_pt(61, 30, 84, 76).add_defined(g2_pt(65, 87, 47, 11).sneg()),
        g2_pt(61, 30, 84, 76).sadd(g2_pt(65, 87, 47, 11).sneg()) != G2Point::Infinity,
        sproject(g2_pt(61, 30, 84, 76).sadd(g2_pt(65, 87, 47, 11).sneg())) == col_point(1),
{
    lemma_g2_diff_at((61, 30), (84, 76), (65, 87), (47, 11), 32, 33);
    crate::pairing_values::lemma_distort_11();
    crate::pairing_values::lemma_distort_10();
    crate::pairing_values::lemma_g1_neg_at(26, 56);
    crate::pairing_values::lemma_g1_add_at((58, 36), (26, 45), (-1, 69, 41, 28, 66, 3, 30, 42, 95, 17));
}

proof fn lemma_w_11_12()
    ensures
        g2_pt(61, 30, 84, 76).add_defined(g2_pt(29, 87, 70, 40).sneg()),
        g2_pt(61, 30, 84, 76).sadd(g2_pt(29, 87, 70, 40).sneg()) != G2Point::Infinity,
        sproject(g2_pt(61, 30, 84, 76).sadd(g2_pt(29, 87, 70, 40).sneg())) == col_point(33),
{
    lemma_g2_diff_at((61, 30), (84, 76), (29, 87), (70, 40), 42, 31);
    crate::pairing_values::lemma_distort_11();
    crate::pairing_values::lemma_distort_12();
    crate::pairing_values::lemma_g1_neg_at(91, 66);
    crate::pairing_values::lemma_g1_add_at((58, 36), (91, 35), (0, 33, 49, 16, 52, -1, 30, 25, 6, 14));
}

proof fn lemma_w_11_13()
    ensures
        g2_pt(61, 30, 84, 76).add_defined(g2_pt(4, 46, 3, 36).sneg()),
        g2_pt(61, 30, 84, 76).sadd(g2_pt(4, 46, 3, 36).sneg()) != G2Point::Infinity,
        sproject(g2_pt(61, 30, 84, 76).sadd(g2_pt(4, 46, 3, 36).sneg())) == col_point(32),
{
    lemma_g2_diff_at((61, 30), (84, 76), (4, 46), (3, 36), 34, 71);
    crate::pairing_values::lemma_distort_11();
    crate::pairing_values::lemma_distort_13();
    crate::pairing_values::lemma_g1_neg_at(60, 60);
    crate::pairing_values::lemma_g1_add_at((58, 36), (60, 41), (0, 2, 51, 1, 53, 2, 65, 26, 98, -5));
}

proof fn lemma_w_11_14()
    ensures
        g2_pt(61, 30, 84, 76).add_defined(g2_pt(42, 100, 84, 16).sneg()),
        g2_pt(61, 30, 84, 76).sadd(g2_pt(42, 100, 84, 16).sneg()) != G2Point::Infinity,
        sproject(g2_pt(61, 30, 84, 76).sadd(g2_pt(42, 100, 84, 16).sneg())) == col_point(31),
{
    lemma_g2_diff_at((61, 30), (84, 76), (42, 100), (84, 16), 52, 9);
    crate::pairing_values::lemma_distort_11();
    crate::pairing_values::lemma_distort_14();
    crate::pairing_values::lemma_g1_neg_at(32, 42);
    crate::pairing_values::lemma_g1_add_at((58, 36), (32, 59), (-1, 75, 66, 49, 3, 15, 20, -1, 78, 0));
}

proof fn lemma_w_11_15()
    ensures
        g2_pt(61, 30, 84, 76).add_defined(g2_pt(71, 14, 32, 68).sneg()),
        g2_pt(61, 30, 84, 76).sadd(g2_pt(71, 14, 32, 68).sneg()) != G2Point::Infinity,
        sproject(g2_pt(61, 30, 84, 76).sadd(g2_pt(71, 14, 32, 68).sneg())) == col_point(30),
{
    lemma_g2_diff_at((61, 30), (84, 76), (71, 14), (32, 68), 3, 53);
    crate::pairing_values::lemma_distort_11();
    crate::pairing_values::lemma_distort_15();
    crate::pairing_values::lemma_g1_neg_at(9, 5);
    crate::pairing_values::lemma_g1_add_at((58, 36), (9, 96), (-1, 52, 68, 35, 40, 40, 18, 15, 49, 15));
}

proof fn lemma_w_11_16()
    ensures
        g2_pt(61, 30, 84, 76).add_defined(g2_pt(93, 48, 94, 99).sneg()),
        g2_pt(61, 30, 84, 76).sadd(g2_pt(93, 48, 94, 99).sneg()) != G2Point::Infinity,
        sproject(g2_pt(61, 30, 84, 76).sadd(g2_pt(93, 48, 94, 99).sneg())) == col_point(29),
{
    lemma_g2_diff_at((61, 30), (84, 76), (93, 48), (94, 99), 13, 35);
    crate::pairing_values::lemma_distort_11();
    crate::pairing_values::lemma_distort_16();
    crate::pairing_values::lemma_g1_neg_at(68, 74);
    crate::pairing_values::lemma_g1_add_at((58, 36), (68, 27), (0, 10, 91, 9, 90, -9, 96, 78, 79, -35));
}

proof fn lemma_w_12_1()
    ensures
        g2_pt(29, 87, 70, 40).add_defined(g2_pt(0, 3, 9, 49).sneg()),
        g2_pt(29, 87, 70, 40).sadd(g2_pt(0, 3, 9, 49).sneg()) != G2Point::Infinity,
        sproject(g2_pt(29, 87, 70, 40).sadd(g2_pt(0, 3, 9, 49).sneg())) == col_point(11),
{
    lemma_g2_diff_at((29, 87), (70, 40), (0, 3), (9, 49), 78, 19);
    crate::pairing_values::lemma_distort_12();
    crate::pairing_values::lemma_distort_1();
    crate::pairing_values::lemma_g1_neg_at(30, 95);
    crate::pairing_values::lemma_g1_add_at((91, 66), (30, 6), (-1, 40, 48, 19, 49, -29, 58, 22, 36, 15));
}

proof fn lemma_w_12_2()
    ensures
        g2_pt(29, 87, 70, 40).add_defined(g2_pt(38, 33, 61, 75).sneg()),
        g2_pt(29, 87, 70, 40).sadd(g2_pt(38, 33, 61, 75).sneg()) != G2Point::Infinity,
        sproject(g2_pt(29, 87, 70, 40).sadd(g2_pt(38, 33, 61, 75).sneg())) == col_point(10),
{
    lemma_g2_diff_at((29, 87), (70, 40), (38, 33), (61, 75), 29, 68);
    crate::pairing_values::lemma_distort_12();
    crate::pairing_values::lemma_distort_2();
    crate::pairing_values::lemma_g1_neg_at(65, 3);
    crate::pairing_values::lemma_g1_add_at((91, 66), (65, 98), (-1, 75, 66, 49, 92, 20, 26, 82, 56, 58));
}

proof fn lemma_w_12_3()
    ensures
        g2_pt(29, 87, 70, 40).add_defined(g2_pt(19, 91, 88, 44).sneg()),
        g2_pt(29, 87, 70, 40).sadd(g2_pt(19, 91, 88, 44).sneg()) != G2Point::Infinity,
        sproject(g2_pt(29, 87, 70, 40).sadd(g2_pt(19, 91, 88, 44).sneg())) == col_point(9),
{
    lemma_g2_diff_at((29, 87), (70, 40), (19, 91), (88, 44), 1, 15);
    crate::pairing_values::lemma_distort_12();
    crate::pairing_values::lemma_distort_3();
    crate::pairing_values::lemma_g1_neg_at(20, 23);
    crate::pairing_values::lemma_g1_add_at((91, 66), (20, 78), (-1, 30, 64, 19, 61, 7, 75, 35, 1, 9));
}

proof fn lemma_w_12_4()
    ensures
        g2_pt(29, 87, 70, 40).add_defined(g2_pt(5, 72, 16, 44).sneg()),
        g2_pt(29, 87, 70, 40).sadd(g2_pt(5, 72, 16, 44).sneg()) != G2Point::Infinity,
        sproject(g2_pt(29, 87, 70, 40).sadd(g2_pt(5, 72, 16, 44).sneg())) == col_point(8),
{
    lemma_g2_diff_at((29, 87), (70, 40), (5, 72), (16, 44), 7, 94);
    crate::pairing_values::lemma_distort_12();
    crate::pairing_values::lemma_distort_4();
    crate::pairing_values::lemma_g1_neg_at(18, 52);
    crate::pairing_values::lemma_g1_add_at((91, 66), (18, 49), (-1, 28, 83, 23, 3, -14, 1, -1, 2, 2));
}

proof fn lemma_w_12_5()
    ensures
        g2_pt(29, 87, 70, 40).add_defined(g2_pt(69, 33, 71, 86).sneg()),
        g2_pt(29, 87, 70, 40).sadd(g2_pt(69, 33, 71, 86).sneg()) != G2Point::Infinity,
        sproject(g2_pt(29, 87, 70, 40).sadd(g2_pt(69, 33, 71, 86).sneg())) == col_point(7),
{
    lemma_g2_diff_at((29, 87), (70, 40), (69, 33), (71, 86), 44, 72);
    crate::pairing_values::lemma_distort_12();
    crate::pairing_values::lemma_distort_5();
    crate::pairing_values::lemma_g1_neg_at(96, 22);
    crate::pairing_values::lemma_g1_add_at((91, 66), (96, 79), (0, 5, 81, 4, 43, 10, 46, 16, 51, 18));
}

proof fn lemma_w_12_6()
    ensures
        g2_pt(29, 87, 70, 40).add_defined(g2_pt(57, 46, 17, 52).sneg()),
        g2_pt(29, 87, 70, 40).sadd(g2_pt(57, 46, 17, 52).sneg()) != G2Point::Infinity,
        sproject(g2_pt(29, 87, 70, 40).sadd(g2_pt(57, 46, 17, 52).sneg())) == col_point(6),
{
    lemma_g2_diff_at((29, 87), (70, 40), (57, 46), (17, 52), 24, 41);
    crate::pairing_values::lemma_distort_12();
    crate::pairing_values::lemma_distort_6();
    crate::pairing_values::lemma_g1_neg_at(12, 32);
    crate::pairing_values::lemma_g1_add_at((91, 66), (12, 69), (-1, 22, 23, 5, 69, 0, 12, 46, 32, 53));
}

proof fn lemma_w_12_7()
    ensures
        g2_pt(29, 87, 70, 40).add_defined(g2_pt(81, 47, 93, 16).sneg()),
        g2_pt(29, 87, 70, 40).sadd(g2_pt(81, 47, 93, 16).sneg()) != G2Point::Infinity,
        sproject(g2_pt(29, 87, 70, 40).sadd(g2_pt(81, 47, 93, 16).sneg())) == col_point(5),
{
    lemma_g2_diff_at((29, 87), (70, 40), (81, 47), (93, 16), 42, 62);
    crate::pairing_values::lemma_distort_12();
    crate::pairing_values::lemma_distort_7();
    crate::pairing_values::lemma_g1_neg_at(46, 51);
    crate::pairing_values::lemma_g1_add_at((91, 66), (46, 50), (-1, 56, 92, 51, 43, -15, 96, 16, 22, -3));
}

proof fn lemma_w_12_8()
    ensures
        g2_pt(29, 87, 70, 40).add_defined(g2_pt(18, 69, 94, 11).sneg()),
        g2_pt(29, 87, 70, 40).sadd(g2_pt(18, 69, 94, 11).sneg()) != G2Point::Infinity,
        sproject(g2_pt(29, 87, 70, 40).sadd(g2_pt(18, 69, 94, 11).sneg())) == col_point(4),
{
    lemma_g2_diff_at((29, 87), (70, 40), (18, 69), (94, 11), 4, 41);
    crate::pairing_values::lemma_distort_12();
    crate::pairing_values::lemma_distort_8();
    crate::pairing_values::lemma_g1_neg_at(1, 2);
    crate::pairing_values::lemma_g1_add_at((91, 66), (1, 99), (-1, 11, 46, 5, 3, 15, 18, -1, 52, 1));
}

proof fn lemma_w_12_9()
    ensures
        g2_pt(29, 87, 70, 40).add_defined(g2_pt(83, 80, 84, 22).sneg()),
        g2_pt(29, 87, 70, 40).sadd(g2_pt(83, 80, 84, 22).sneg()) != G2Point::Infinity,
        sproject(g2_pt(29, 87, 70, 40).sadd(g2_pt(83, 80, 84, 22).sneg())) == col_point(3),
{
    lemma_g2_diff_at((29, 87), (70, 40), (83, 80), (84, 22), 29, 36);
    crate::pairing_values::lemma_distort_12();
    crate::pairing_values::lemma_distort_9();
    crate::pairing_values::lemma_g1_neg_at(75, 1);
    crate::pairing_values::lemma_g1_add_at((91, 66), (75, 100), (-1, 85, 82, 69, 61, 27, 20, 35, 23, 42));
}

proof fn lemma_w_12_10()
    ensures
        g2_pt(29, 87, 70, 40).add_defined(g2_pt(65, 87, 47, 11).sneg()),
        g2_pt(29, 87, 70, 40).sadd(g2_pt(65, 87, 47, 11).sneg()) != G2Point::Infinity,
        sproject(g2_pt(29, 87, 70, 40).sadd(g2_pt(65, 87, 47, 11).sneg())) == col_point(2),
{
    lemma_g2_diff_at((29, 87), (70, 40), (65, 87), (47, 11), 12, 84);
    crate::pairing_values::lemma_distort_12();
    crate::pairing_values::lemma_distort_10();
    crate::pairing_values::lemma_g1_neg_at(26, 56);
    crate::pairing_values::lemma_g1_add_at((91, 66), (26, 45), (-1, 36, 87, 31, 92, -19, 65, 82, 3, 23));
}

proof fn lemma_w_12_11()
    ensures
        g2_pt(29, 87, 70, 40).add_defined(g2_pt(61, 30, 84, 76).sneg()),
        g2_pt(29, 87, 70, 40).sadd(g2_pt(61, 30, 84, 76).sneg()) != G2Point::Infinity,
        sproject(g2_pt(29, 87, 70, 40).sadd(g2_pt(61, 30, 84, 76).sneg())) == col_point(1),
{
    lemma_g2_diff_at((29, 87), (70, 40), (61, 30), (84, 76), 42, 31);
    crate::pairing_values::lemma_distort_12();
    crate::pairing_values::lemma_distort_11();
    crate::pairing_values::lemma_g1_neg_at(58, 36);
    crate::pairing_values::lemma_g1_add_at((91, 66), (58, 65), (-1, 68, 52, 35, 49, -1, 30, 22, 95, 28));
}

proof fn lemma_w_12_13()
    ensures
        g2_pt(29, 87, 70, 40).add_defined(g2_pt(4, 46, 3, 36).sneg()),
        g2_pt(29, 87, 70, 40).sadd(g2_pt(4, 46, 3, 36).sneg()) != G2Point::Infinity,
        sproject(g2_pt(29, 87, 70, 40).sadd(g2_pt(4, 46, 3, 36).sneg())) == col_point(33),
{
    lemma_g2_diff_at((29, 87), (70, 40), (4, 46), (3, 36), 22, 84);
    crate::pairing_values::lemma_distort_12();
    crate::pairing_values::lemma_distort_13();
    crate::pairing_values::lemma_g1_neg_at(60, 60);
    crate::pairing_values::lemma_g1_add_at((91, 66), (60, 41), (-1, 70, 13, 9, 79, -4, 30, 60, 6, 47));
}

proof fn lemma_w_12_14()
    ensures
        g2_pt(29, 87, 70, 40).add_defined(g2_pt(42, 100, 84, 16).sneg()),
        g2_pt(29, 87, 70, 40).sadd(g2_pt(42, 100, 84, 16).sneg()) != G2Point::Infinity,
        sproject(g2_pt(29, 87, 70, 40).sadd(g2_pt(42, 100, 84, 16).sneg())) == col_point(32),
{
    lemma_g2_diff_at((29, 87), (70, 40), (42, 100), (84, 16), 3, 35);
    crate::pairing_values::lemma_distort_12();
    crate::pairing_values::lemma_distort_14();
    crate::pairing_values::lemma_g1_neg_at(32, 42);
    crate::pairing_values::lemma_g1_add_at((91, 66), (32, 59), (-1, 42, 89, 37, 84, -7, 65, 68, 98, 20));
}

proof fn lemma_w_12_15()
    ensures
        g2_pt(29, 87, 70, 40).add_defined(g2_pt(71, 14, 32, 68).sneg()),
        g2_pt(29, 87, 70, 40).sadd(g2_pt(71, 14, 32, 68).sneg()) != G2Point::Infinity,
        sproject(g2_pt(29, 87, 70, 40).sadd(g2_pt(71, 14, 32, 68).sneg())) == col_point(31),
{
    lemma_g2_diff_at((29, 87), (70, 40), (71, 14), (32, 68), 70, 23);
    crate::pairing_values::lemma_distort_12();
    crate::pairing_values::lemma_distort_15();
    crate::pairing_values::lemma_g1_neg_at(9, 5);
    crate::pairing_values::lemma_g1_add_at((91, 66), (9, 96), (-1, 19, 16, 3, 76, 4, 20, 56, 78, 52));
}

proof fn lemma_w_12_16()
    ensures
        g2_pt(29, 87, 70, 40).add_defined(g2_pt(93, 48, 94, 99).sneg()),
        g2_pt(29, 87, 70, 40).sadd(g2_pt(93, 48, 94, 99).sneg()) != G2Point::Infinity,
        sproject(g2_pt(29, 87, 70, 40).sadd(g2_pt(93, 48, 94, 99).sneg())) == col_point(30),
{
    lemma_g2_diff_at((29, 87), (70, 40), (93, 48), (94, 99), 55, 62);
    crate::pairing_values::lemma_distort_12();
    crate::pairing_values::lemma_distort_16();
    crate::pairing_values::lemma_g1_neg_at(68, 74);
    crate::pairing_values::lemma_g1_add_at((91, 66), (68, 27), (-1, 78, 79, 61, 50, -31, 18, 23, 49, 35));
}

proof fn lemma_w_13_1()
    ensures
        g2_pt(4, 46, 3, 36).add_defined(g2_pt(0, 3, 9, 49).sneg()),
        g2_pt(4, 46, 3, 36).sadd(g2_pt(0, 3, 9, 49).sneg()) != G2Point::Infinity,
        sproject(g2_pt(4, 46, 3, 36).sadd(g2_pt(0, 3, 9, 49).sneg())) == col_point(12),
{
    lemma_g2_diff_at((4, 46), (3, 36), (0, 3), (9, 49), 18, 47);
    crate::pairing_values::lemma_distort_13();
    crate::pairing_values::lemma_distort_1();
    crate::pairing_values::lemma_g1_neg_at(30, 95);
    crate::pairing_values::lemma_g1_add_at((60, 60), (30, 6), (-1, 71, 37, 26, 22, -20, 91, 3, 66, -8));
}

proof fn lemma_w_13_2()
    ensures
        g2_pt(4, 46, 3, 36).add_defined(g2_pt(38, 33, 61, 75).sneg()),
        g2_pt(4, 46, 3, 36).sadd(g2_pt(38, 33, 61, 75).sneg()) != G2Point::Infinity,
        sproject(g2_pt(4, 46, 3, 36).sadd(g2_pt(38, 33, 61, 75).sneg())) == col_point(11),
{
    lemma_g2_diff_at((4, 46), (3, 36), (38, 33), (61, 75), 13, 12);
    crate::pairing_values::lemma_distort_13();
    crate::pairing_values::lemma_distort_2();
    crate::pairing_values::lemma_g1_neg_at(65, 3);
    crate::pairing_values::lemma_g1_add_at((60, 60), (65, 98), (0, 5, 81, 4, 48, 30, 58, 21, 36, 0));
}

proof fn lemma_w_13_3()
    ensures
        g2_pt(4, 46, 3, 36).add_defined(g2_pt(19, 91, 88, 44).sneg()),
        g2_pt(4, 46, 3, 36).sadd(g2_pt(19, 91, 88, 44).sneg()) != G2Point::Infinity,
        sproject(g2_pt(4, 46, 3, 36).sadd(g2_pt(19, 91, 88, 44).sneg())) == col_point(10),
{
    lemma_g2_diff_at((4, 46), (3, 36), (19, 91), (88, 44), 22, 28);
    crate::pairing_values::lemma_distort_13();
    crate::pairing_values::lemma_distort_3();
    crate::pairing_values::lemma_g1_neg_at(20, 23);
    crate::pairing_values::lemma_g1_add_at((60, 60), (20, 78), (-1, 61, 53, 32, 45, 9, 26, 19, 56, 14));
}

proof fn lemma_w_13_4()
    ensures
        g2_pt(4, 46, 3, 36).add_defined(g2_pt(5, 72, 16, 44).sneg()),
        g2_pt(4, 46, 3, 36).sadd(g2_pt(5, 72, 16, 44).sneg()) != G2Point::Infinity,
        sproject(g2_pt(4, 46, 3, 36).sadd(g2_pt(5, 72, 16, 44).sneg())) == col_point(9),
{
    lemma_g2_diff_at((4, 46), (3, 36), (5, 72), (16, 44), 6, 71);
    crate::pairing_values::lemma_distort_13();
    crate::pairing_values::lemma_distort_4();
    crate::pairing_values::lemma_g1_neg_at(18, 52);
    crate::pairing_values::lemma_g1_add_at((60, 60), (18, 49), (-1, 59, 12, 7, 70, -2, 75, 47, 1, -11));
}

proof fn lemma_w_13_5()
    ensures
        g2_pt(4, 46, 3, 36).add_defined(g2_pt(69, 33, 71, 86).sneg()),
        g2_pt(4, 46, 3, 36).sadd(g2_pt(69, 33, 71, 86).sneg()) != G2Point::Infinity,
        sproject(g2_pt(4, 46, 3, 36).sadd(g2_pt(69, 33, 71, 86).sneg())) == col_point(8),
{
    lemma_g2_diff_at((4, 46), (3, 36), (69, 33), (71, 86), 43, 51);
    crate::pairing_values::lemma_distort_13();
    crate::pairing_values::lemma_distort_5();
    crate::pairing_values::lemma_g1_neg_at(96, 22);
    crate::pairing_values::lemma_g1_add_at((60, 60), (96, 79), (0, 36, 87, 31, 37, 16, 1, 12, 2, 21));
}

proof fn lemma_w_13_6()
    ensures
        g2_pt(4, 46, 3, 36).add_defined(g2_pt(57, 46, 17, 52).sneg()),
        g2_pt(4, 46, 3, 36).sadd(g2_pt(57, 46, 17, 52).sneg()) != G2Point::Infinity,
        sproject(g2_pt(4, 46, 3, 36).sadd(g2_pt(57, 46, 17, 52).sneg())) == col_point(7),
{
    lemma_g2_diff_at((4, 46), (3, 36), (57, 46), (17, 52), 27, 82);
    crate::pairing_values::lemma_distort_13();
    crate::pairing_values::lemma_distort_6();
    crate::pairing_values::lemma_g1_neg_at(12, 32);
    crate::pairing_values::lemma_g1_add_at((60, 60), (12, 69), (-1, 53, 61, 32, 44, 5, 46, 18, 51, 5));
}

proof fn lemma_w_13_7()
    ensures
        g2_pt(4, 46, 3, 36).add_defined(g2_pt(81, 47, 93, 16).sneg()),
        g2_pt(4, 46, 3, 36).sadd(g2_pt(81, 47, 93, 16).sneg()) != G2Point::Infinity,
        sproject(g2_pt(4, 46, 3, 36).sadd(g2_pt(81, 47, 93, 16).sneg())) == col_point(6),
{
    lemma_g2_diff_at((4, 46), (3, 36), (81, 47), (93, 16), 58, 72);
    crate::pairing_values::lemma_distort_13();
    crate::pairing_values::lemma_distort_7();
    crate::pairing_values::lemma_g1_neg_at(46, 51);
    crate::pairing_values::lemma_g1_add_at((60, 60), (46, 50), (-1, 87, 36, 31, 44, -4, 12, 18, 32, 20));
}

proof fn lemma_w_13_8()
    ensures
        g2_pt(4, 46, 3, 36).add_defined(g2_pt(18, 69, 94, 11).sneg()),
        g2_pt(4, 46, 3, 36).sadd(g2_pt(18, 69, 94, 11).sneg()) != G2Point::Infinity,
        sproject(g2_pt(4, 46, 3, 36).sadd(g2_pt(18, 69, 94, 11).sneg())) == col_point(5),
{
    lemma_g2_diff_at((4, 46), (3, 36), (18, 69), (94, 11), 7, 18);
    crate::pairing_values::lemma_distort_13();
    crate::pairing_values::lemma_distort_8();
    crate::pairing_values::lemma_g1_neg_at(1, 2);
    crate::pairing_values::lemma_g1_add_at((60, 60), (1, 99), (-1, 42, 89, 37, 37, 34, 96, 12, 22, -14));
}

proof fn lemma_w_13_9()
    ensures
        g2_pt(4, 46, 3, 36).add_defined(g2_pt(83, 80, 84, 22).sneg()),
        g2_pt(4, 46, 3, 36).sadd(g2_pt(83, 80, 84, 22).sneg()) != G2Point::Infinity,
        sproject(g2_pt(4, 46, 3, 36).sadd(g2_pt(83, 80, 84, 22).sneg())) == col_point(4),
{
    lemma_g2_diff_at((4, 46), (3, 36), (83, 80), (84, 22), 73, 24);
    crate::pairing_values::lemma_distort_13();
    crate::pairing_values::lemma_distort_9();
    crate::pairing_values::lemma_g1_neg_at(75, 1);
    crate::pairing_values::lemma_g1_add_at((60, 60), (75, 100), (0, 15, 27, 4, 70, 10, 18, 47, 52, 28));
}

proof fn lemma_w_13_10()
    ensures
        g2_pt(4, 46, 3, 36).add_defined(g2_pt(65, 87, 47, 11).sneg()),
        g2_pt(4, 46, 3, 36).sadd(g2_pt(65, 87, 47, 11).sneg()) != G2Point::Infinity,
        sproject(g2_pt(4, 46, 3, 36).sadd(g2_pt(65, 87, 47, 11).sneg())) == col_point(3),
{
    lemma_g2_diff_at((4, 46), (3, 36), (65, 87), (47, 11), 53, 49);
    crate::pairing_values::lemma_distort_13();
    crate::pairing_values::lemma_distort_10();
    crate::pairing_values::lemma_g1_neg_at(26, 56);
    crate::pairing_values::lemma_g1_add_at((60, 60), (26, 45), (-1, 67, 98, 65, 45, -15, 20, 19, 23, 17));
}

proof fn lemma_w_13_11()
    ensures
        g2_pt(4, 46, 3, 36).add_defined(g2_pt(61, 30, 84, 76).sneg()),
        g2_pt(4, 46, 3, 36).sadd(g2_pt(61, 30, 84, 76).sneg()) != G2Point::Infinity,
        sproject(g2_pt(4, 46, 3, 36).sadd(g2_pt(61, 30, 84, 76).sneg())) == col_point(2),
{
    lemma_g2_diff_at((4, 46), (3, 36), (61, 30), (84, 76), 34, 71);
    crate::pairing_values::lemma_distort_13();
    crate::pairing_values::lemma_distort_11();
    crate::pairing_values::lemma_g1_neg_at(58, 36);
    crate::pairing_values::lemma_g1_add_at((60, 60), (58, 65), (-1, 99, 50, 49, 48, 2, 65, 21, 3, -3));
}

proof fn lemma_w_13_12()
    ensures
        g2_pt(4, 46, 3, 36).add_defined(g2_pt(29, 87, 70, 40).sneg()),
        g2_pt(4, 46, 3, 36).sadd(g2_pt(29, 87, 70, 40).sneg()) != G2Point::Infinity,
        sproject(g2_pt(4, 46, 3, 36).sadd(g2_pt(29, 87, 70, 40).sneg())) == col_point(1),
{
    lemma_g2_diff_at((4, 46), (3, 36), (29, 87), (70, 40), 22, 84);
    crate::pairing_values::lemma_distort_13();
    crate::pairing_values::lemma_distort_12();
    crate::pairing_values::lemma_g1_neg_at(91, 66);
    crate::pairing_values::lemma_g1_add_at((60, 60), (91, 35), (0, 31, 88, 27, 22, -22, 30, 3, 95, 5));
}

proof fn lemma_w_13_14()
    ensures
        g2_pt(4, 46, 3, 36).add_defined(g2_pt(42, 100, 84, 16).sneg()),
        g2_pt(4, 46, 3, 36).sadd(g2_pt(42, 100, 84, 16).sneg()) != G2Point::Infinity,
        sproject(g2_pt(4, 46, 3, 36).sadd(g2_pt(42, 100, 84, 16).sneg())) == col_point(33),
{
    lemma_g2_diff_at((4, 46), (3, 36), (42, 100), (84, 16), 43, 17);
    crate::pairing_values::lemma_distort_13();
    crate::pairing_values::lemma_distort_14();
    crate::pairing_values::lemma_g1_neg_at(32, 42);
    crate::pairing_values::lemma_g1_add_at((60, 60), (32, 59), (-1, 73, 18, 13, 83, -1, 30, 67, 6, 24));
}

proof fn lemma_w_13_15()
    ensures
        g2_pt(4, 46, 3, 36).add_defined(g2_pt(71, 14, 32, 68).sneg()),
        g2_pt(4, 46, 3, 36).sadd(g2_pt(71, 14, 32, 68).sneg()) != G2Point::Infinity,
        sproject(g2_pt(4, 46, 3, 36).sadd(g2_pt(71, 14, 32, 68).sneg())) == col_point(32),
{
    lemma_g2_diff_at((4, 46), (3, 36), (71, 14), (32, 68), 54, 59);
    crate::pairing_values::lemma_distort_13();
    crate::pairing_values::lemma_distort_15();
    crate::pairing_values::lemma_g1_neg_at(9, 5);
    crate::pairing_values::lemma_g1_add_at((60, 60), (9, 96), (-1, 50, 99, 49, 29, 35, 65, 7, 98, -3));
}

proof fn lemma_w_13_16()
    ensures
        g2_pt(4, 46, 3, 36).add_defined(g2_pt(93, 48, 94, 99).sneg()),
        g2_pt(4, 46, 3, 36).sadd(g2_pt(93, 48, 94, 99).sneg()) != G2Point::Infinity,
        sproject(g2_pt(4, 46, 3, 36).sadd(g2_pt(93, 48, 94, 99).sneg())) == col_point(31),
{
    lemma_g2_diff_at((4, 46), (3, 36), (93, 48), (94, 99), 78, 47);
    crate::pairing_values::lemma_distort_13();
    crate::pairing_values::lemma_distort_16();
    crate::pairing_values::lemma_g1_neg_at(68, 74);
    crate::pairing_values::lemma_g1_add_at((60, 60), (68, 27), (0, 8, 38, 3, 59, -13, 20, 33, 78, 22));
}

proof fn lemma_w_14_1()
    ensures
        g2_pt(42, 100, 84, 16).add_defined(g2_pt(0, 3, 9, 49).sneg()),
        g2_pt(42, 100, 84, 16).sadd(g2_pt(0, 3, 9, 49).sneg()) != G2Point::Infinity,
        sproject(g2_pt(42, 100, 84, 16).sadd(g2_pt(0, 3, 9, 49).sneg())) == col_point(13),
{
    lemma_g2_diff_at((42, 100), (84, 16), (0, 3), (9, 49), 110, 63);
    crate::pairing_values::lemma_distort_14();
    crate::pairing_values::lemma_distort_1();
    crate::pairing_values::lemma_g1_neg_at(30, 95);
    crate::pairing_values::lemma_g1_add_at((32, 42), (30, 6), (-1, 99, 50, 49, 18, -18, 60, 2, 60, -6));
}

proof fn lemma_w_14_2()
    ensures
        g2_pt(42, 100, 84, 16).add_defined(g2_pt(38, 33, 61, 75).sneg()),
        g2_pt(42, 100, 84, 16).sadd(g2_pt(38, 33, 61, 75).sneg()) != G2Point::Infinity,
        sproject(g2_pt(42, 100, 84, 16).sadd(g2_pt(38, 33, 61, 75).sneg())) == col_point(12),
{
    lemma_g2_diff_at((42, 100), (84, 16), (38, 33), (61, 75), 44, 61);
    crate::pairing_values::lemma_distort_14();
    crate::pairing_values::lemma_distort_2();
    crate::pairing_values::lemma_g1_neg_at(65, 3);
    crate::pairing_values::lemma_g1_add_at((32, 42), (65, 98), (0, 33, 49, 16, 17, 27, 91, 1, 66, -11));
}

proof fn lemma_w_14_3()
    ensures
        g2_pt(42, 100, 84, 16).add_defined(g2_pt(19, 91, 88, 44).sneg()),
        g2_pt(42, 100, 84, 16).sadd(g2_pt(19, 91, 88, 44).sneg()) != G2Point::Infinity,
        sproject(g2_pt(42, 100, 84, 16).sadd(g2_pt(19, 91, 88, 44).sneg())) == col_point(11),
{
    lemma_g2_diff_at((42, 100), (84, 16), (19, 91), (88, 44), 6, 4);
    crate::pairing_values::lemma_distort_14();
    crate::pairing_values::lemma_distort_3();
    crate::pairing_values::lemma_g1_neg_at(20, 23);
    crate::pairing_values::lemma_g1_add_at((32, 42), (20, 78), (-1, 89, 42, 37, 98, 14, 58, 94, 36, -26));
}

proof fn lemma_w_14_4()
    ensures
        g2_pt(42, 100, 84, 16).add_defined(g2_pt(5, 72, 16, 44).sneg()),
        g2_pt(42, 100, 84, 16).sadd(g2_pt(5, 72, 16, 44).sneg()) != G2Point::Infinity,
        sproject(g2_pt(42, 100, 84, 16).sadd(g2_pt(5, 72, 16, 44).sneg())) == col_point(10),
{
    lemma_g2_diff_at((42, 100), (84, 16), (5, 72), (16, 44), 21, 32);
    crate::pairing_values::lemma_distort_14();
    crate::pairing_values::lemma_distort_4();
    crate::pairing_values::lemma_g1_neg_at(18, 52);
    crate::pairing_values::lemma_g1_add_at((32, 42), (18, 49), (-1, 87, 36, 31, 50, 2, 26, 24, 56, 2));
}

proof fn lemma_w_14_5()
    ensures
        g2_pt(42, 100, 84, 16).add_defined(g2_pt(69, 33, 71, 86).sneg()),
        g2_pt(42, 100, 84, 16).sadd(g2_pt(69, 33, 71, 86).sneg()) != G2Point::Infinity,
        sproject(g2_pt(42, 100, 84, 16).sadd(g2_pt(69, 33, 71, 86).sneg())) == col_point(9),
{
    lemma_g2_diff_at((42, 100), (84, 16), (69, 33), (71, 86), 51, 67);
    crate::pairing_values::lemma_distort_14();
    crate::pairing_values::lemma_distort_5();
    crate::pairing_values::lemma_g1_neg_at(96, 22);
    crate::pairing_values::lemma_g1_add_at((32, 42), (96, 79), (0, 64, 30, 19, 100, 10, 75, 97, 1, -43));
}

proof fn lemma_w_14_6()
    ensures
        g2_pt(42, 100, 84, 16).add_defined(g2_pt(57, 46, 17, 52).sneg()),
        g2_pt(42, 100, 84, 16).sadd(g2_pt(57, 46, 17, 52).sneg()) != G2Point::Infinity,
        sproject(g2_pt(42, 100, 84, 16).sadd(g2_pt(57, 46, 17, 52).sneg())) == col_point(8),
{
    lemma_g2_diff_at((42, 100), (84, 16), (57, 46), (17, 52), 31, 10);
    crate::pairing_values::lemma_distort_14();
    crate::pairing_values::lemma_distort_6();
    crate::pairing_values::lemma_g1_neg_at(12, 32);
    crate::pairing_values::lemma_g1_add_at((32, 42), (12, 69), (-1, 81, 5, 4, 34, 1, 1, 11, 2, 10));
}

proof fn lemma_w_14_7()
    ensures
        g2_pt(42, 100, 84, 16).add_defined(g2_pt(81, 47, 93, 16).sneg()),
        g2_pt(42, 100, 84, 16).sadd(g2_pt(81, 47, 93, 16).sneg()) != G2Point::Infinity,
        sproject(g2_pt(42, 100, 84, 16).sadd(g2_pt(81, 47, 93, 16).sneg())) == col_point(7),
{
    lemma_g2_diff_at((42, 100), (84, 16), (81, 47), (93, 16), 42, 88);
    crate::pairing_values::lemma_distort_14();
    crate::pairing_values::lemma_distort_7();
    crate::pairing_values::lemma_g1_neg_at(46, 51);
    crate::pairing_values::lemma_g1_add_at((32, 42), (46, 50), (0, 14, 65, 9, 15, 5, 46, 1, 51, -3));
}

proof fn lemma_w_14_8()
    ensures
        g2_pt(42, 100, 84, 16).add_defined(g2_pt(18, 69, 94, 11).sneg()),
        g2_pt(42, 100, 84, 16).sadd(g2_pt(18, 69, 94, 11).sneg()) != G2Point::Infinity,
        sproject(g2_pt(42, 100, 84, 16).sadd(g2_pt(18, 69, 94, 11).sneg())) == col_point(6),
{
    lemma_g2_diff_at((42, 100), (84, 16), (18, 69), (94, 11), 15, 22);
    crate::pairing_values::lemma_distort_14();
    crate::pairing_values::lemma_distort_8();
    crate::pairing_values::lemma_g1_neg_at(1, 2);
    crate::pairing_values::lemma_g1_add_at((32, 42), (1, 99), (-1, 70, 13, 9, 34, 7, 12, 11, 32, 6));
}

proof fn lemma_w_14_9()
    ensures
        g2_pt(42, 100, 84, 16).add_defined(g2_pt(83, 80, 84, 22).sneg()),
        g2_pt(42, 100, 84, 16).sadd(g2_pt(83, 80, 84, 22).sneg()) != G2Point::Infinity,
        sproject(g2_pt(42, 100, 84, 16).sadd(g2_pt(83, 80, 84, 22).sneg())) == col_point(5),
{
    lemma_g2_diff_at((42, 100), (84, 16), (83, 80), (84, 22), 20, 61);
    crate::pairing_values::lemma_distort_14();
    crate::pairing_values::lemma_distort_9();
    crate::pairing_values::lemma_g1_neg_at(75, 1);
    crate::pairing_values::lemma_g1_add_at((32, 42), (75, 100), (0, 43, 47, 20, 100, 26, 96, 97, 22, -64));
}

proof fn lemma_w_14_10()
    ensures
        g2_pt(42, 100, 84, 16).add_defined(g2_pt(65, 87, 47, 11).sneg()),
        g2_pt(42, 100, 84, 16).sadd(g2_pt(65, 87, 47, 11).sneg()) != G2Point::Infinity,
        sproject(g2_pt(42, 100, 84, 16).sadd(g2_pt(65, 87, 47, 11).sneg())) == col_point(4),
{
    lemma_g2_diff_at((42, 100), (84, 16), (65, 87), (47, 11), 6, 92);
    crate::pairing_values::lemma_distort_14();
    crate::pairing_values::lemma_distort_10();
    crate::pairing_values::lemma_g1_neg_at(26, 56);
    crate::pairing_values::lemma_g1_add_at((32, 42), (26, 45), (-1, 95, 84, 79, 50, 2, 18, 24, 52, 6));
}

proof fn lemma_w_14_11()
    ensures
        g2_pt(42, 100, 84, 16).add_defined(g2_pt(61, 30, 84, 76).sneg()),
        g2_pt(42, 100, 84, 16).sadd(g2_pt(61, 30, 84, 76).sneg()) != G2Point::Infinity,
        sproject(g2_pt(42, 100, 84, 16).sadd(g2_pt(61, 30, 84, 76).sneg())) == col_point(3),
{
    lemma_g2_diff_at((42, 100), (84, 16), (61, 30), (84, 76), 52, 9);
    crate::pairing_values::lemma_distort_14();
    crate::pairing_values::lemma_distort_11();
    crate::pairing_values::lemma_g1_neg_at(58, 36);
    crate::pairing_values::lemma_g1_add_at((32, 42), (58, 65), (0, 26, 35, 9, 98, 7, 20, 94, 23, 11));
}

proof fn lemma_w_14_12()
    ensures
        g2_pt(42, 100, 84, 16).add_defined(g2_pt(29, 87, 70, 40).sneg()),
        g2_pt(42, 100, 84, 16).sadd(g2_pt(29, 87, 70, 40).sneg()) != G2Point::Infinity,
        sproject(g2_pt(42, 100, 84, 16).sadd(g2_pt(29, 87, 70, 40).sneg())) == col_point(2),
{
    lemma_g2_diff_at((42, 100), (84, 16), (29, 87), (70, 40), 3, 35);
    crate::pairing_values::lemma_distort_14();
    crate::pairing_values::lemma_distort_12();
    crate::pairing_values::lemma_g1_neg_at(91, 66);
    crate::pairing_values::lemma_g1_add_at((32, 42), (91, 35), (0, 59, 12, 7, 17, -1, 65, 1, 3, -6));
}

proof fn lemma_w_14_13()
    ensures
        g2_pt(42, 100, 84, 16).add_defined(g2_pt(4, 46, 3, 36).sneg()),
        g2_pt(42, 100, 84, 16).sadd(g2_pt(4, 46, 3, 36).sneg()) != G2Point::Infinity,
        sproject(g2_pt(42, 100, 84, 16).sadd(g2_pt(4, 46, 3, 36).sneg())) == col_point(1),
{
    lemma_g2_diff_at((42, 100), (84, 16), (4, 46), (3, 36), 43, 17);
    crate::pairing_values::lemma_distort_14();
    crate::pairing_values::lemma_distort_13();
    crate::pairing_values::lemma_g1_neg_at(60, 60);
    crate::pairing_values::lemma_g1_add_at((32, 42), (60, 41), (0, 28, 83, 23, 18, -1, 30, 2, 95, -1));
}

proof fn lemma_w_14_15()
    ensures
        g2_pt(42, 100, 84, 16).add_defined(g2_pt(71, 14, 32, 68).sneg()),
        g2_pt(42, 100, 84, 16).sadd(g2_pt(71, 14, 32, 68).sneg()) != G2Point::Infinity,
        sproject(g2_pt(42, 100, 84, 16).sadd(g2_pt(71, 14, 32, 68).sneg())) == col_point(33),
{
    lemma_g2_diff_at((42, 100), (84, 16), (71, 14), (32, 68), 81, 56);
    crate::pairing_values::lemma_distort_14();
    crate::pairing_values::lemma_distort_15();
    crate::pairing_values::lemma_g1_neg_at(9, 5);
    crate::pairing_values::lemma_g1_add_at((32, 42), (9, 96), (-1, 78, 79, 61, 24, 42, 30, 5, 6, 0));
}

proof fn lemma_w_14_16()
    ensures
        g2_pt(42, 100, 84, 16).add_defined(g2_pt(93, 48, 94, 99).sneg()),
        g2_pt(42, 100, 84, 16).sadd(g2_pt(93, 48, 94, 99).sneg()) != G2Point::Infinity,
        sproject(g2_pt(42, 100, 84, 16).sadd(g2_pt(93, 48, 94, 99).sneg())) == col_point(32),
{
    lemma_g2_diff_at((42, 100), (84, 16), (93, 48), (94, 99), 52, 53);
    crate::pairing_values::lemma_distort_14();
    crate::pairing_values::lemma_distort_16();
    crate::pairing_values::lemma_g1_neg_at(68, 74);
    crate::pairing_values::lemma_g1_add_at((32, 42), (68, 27), (0, 36, 87, 31, 8, -13, 65, -1, 98, -4));
}

proof fn lemma_w_15_1()
    ensures
        g2_pt(71, 14, 32, 68).add_defined(g2_pt(0, 3, 9, 49).sneg()),
        g2_pt(71, 14, 32, 68).sadd(g2_pt(0, 3, 9, 49).sneg()) != G2Point::Infinity,
        sproject(g2_pt(71, 14, 32, 68).sadd(g2_pt(0, 3, 9, 49).sneg())) == col_point(14),
{
    lemma_g2_diff_at((71, 14), (32, 68), (0, 3), (9, 49), 51, 11);
    crate::pairing_values::lemma_distort_15();
    crate::pairing_values::lemma_distort_1();
    crate::pairing_values::lemma_g1_neg_at(30, 95);
    crate::pairing_values::lemma_g1_add_at((9, 5), (30, 6), (0, 21, 77, 16, 77, 0, 32, 58, 42, -18));
}

proof fn lemma_w_15_2()
    ensures
        g2_pt(71, 14, 32, 68).add_defined(g2_pt(38, 33, 61, 75).sneg()),
        g2_pt(71, 14, 32, 68).sadd(g2_pt(38, 33, 61, 75).sneg()) != G2Point::Infinity,
        sproject(g2_pt(71, 14, 32, 68).sadd(g2_pt(38, 33, 61, 75).sneg())) == col_point(13),
{
    lemma_g2_diff_at((71, 14), (32, 68), (38, 33), (61, 75), 14, 36);
    crate::pairing_values::lemma_distort_15();
    crate::pairing_values::lemma_distort_2();
    crate::pairing_values::lemma_g1_neg_at(65, 3);
    crate::pairing_values::lemma_g1_add_at((9, 5), (65, 98), (0, 56, 92, 51, 72, 84, 60, 50, 60, -37));
}

proof fn lemma_w_15_3()
    ensures
        g2_pt(71, 14, 32, 68).add_defined(g2_pt(19, 91, 88, 44).sneg()),
        g2_pt(71, 14, 32, 68).sadd(g2_pt(19, 91, 88, 44).sneg()) != G2Point::Infinity,
        sproject(g2_pt(71, 14, 32, 68).sadd(g2_pt(19, 91, 88, 44).sneg())) == col_point(12),
{
    lemma_g2_diff_at((71, 14), (32, 68), (19, 91), (88, 44), 85, 48);
    crate::pairing_values::lemma_distort_15();
    crate::pairing_values::lemma_distort_3();
    crate::pairing_values::lemma_g1_neg_at(20, 23);
    crate::pairing_values::lemma_g1_add_at((9, 5), (20, 78), (0, 11, 46, 5, 25, 33, 91, 5, 66, -21));
}

proof fn lemma_w_15_4()
    ensures
        g2_pt(71, 14, 32, 68).add_defined(g2_pt(5, 72, 16, 44).sneg()),
        g2_pt(71, 14, 32, 68).sadd(g2_pt(5, 72, 16, 44).sneg()) != G2Point::Infinity,
        sproject(g2_pt(71, 14, 32, 68).sadd(g2_pt(5, 72, 16, 44).sneg())) == col_point(11),
{
    lemma_g2_diff_at((71, 14), (32, 68), (5, 72), (16, 44), 76, 44);
    crate::pairing_values::lemma_distort_15();
    crate::pairing_values::lemma_distort_4();
    crate::pairing_values::lemma_g1_neg_at(18, 52);
    crate::pairing_values::lemma_g1_add_at((9, 5), (18, 49), (0, 9, 45, 4, 61, 19, 58, 36, 36, -30));
}

proof fn lemma_w_15_5()
    ensures
        g2_pt(71, 14, 32, 68).add_defined(g2_pt(69, 33, 71, 86).sneg()),
        g2_pt(71, 14, 32, 68).sadd(g2_pt(69, 33, 71, 86).sneg()) != G2Point::Infinity,
        sproject(g2_pt(71, 14, 32, 68).sadd(g2_pt(69, 33, 71, 86).sneg())) == col_point(10),
{
    lemma_g2_diff_at((71, 14), (32, 68), (69, 33), (71, 86), 3, 62);
    crate::pairing_values::lemma_distort_15();
    crate::pairing_values::lemma_distort_5();
    crate::pairing_values::lemma_g1_neg_at(96, 22);
    crate::pairing_values::lemma_g1_add_at((9, 5), (96, 79), (0, 87, 36, 31, 38, 26, 26, 13, 56, -7));
}

proof fn lemma_w_15_6()
    ensures
        g2_pt(71, 14, 32, 68).add_defined(g2_pt(57, 46, 17, 52).sneg()),
        g2_pt(71, 14, 32, 68).sadd(g2_pt(57, 46, 17, 52).sneg()) != G2Point::Infinity,
        sproject(g2_pt(71, 14, 32, 68).sadd(g2_pt(57, 46, 17, 52).sneg())) == col_point(9),
{
    lemma_g2_diff_at((71, 14), (32, 68), (57, 46), (17, 52), 12, 8);
    crate::pairing_values::lemma_distort_15();
    crate::pairing_values::lemma_distort_6();
    crate::pairing_values::lemma_g1_neg_at(12, 32);
    crate::pairing_values::lemma_g1_add_at((9, 5), (12, 69), (0, 3, 34, 1, 55, 21, 75, 29, 1, -36));
}

proof fn lemma_w_15_7()
    ensures
        g2_pt(71, 14, 32, 68).add_defined(g2_pt(81, 47, 93, 16).sneg()),
        g2_pt(71, 14, 32, 68).sadd(g2_pt(81, 47, 93, 16).sneg()) != G2Point::Infinity,
        sproject(g2_pt(71, 14, 32, 68).sadd(g2_pt(81, 47, 93, 16).sneg())) == col_point(8),
{
    lemma_g2_diff_at((71, 14), (32, 68), (81, 47), (93, 16), 11, 78);
    crate::pairing_values::lemma_distort_15();
    crate::pairing_values::lemma_distort_7();
    crate::pairing_values::lemma_g1_neg_at(46, 51);
    crate::pairing_values::lemma_g1_add_at((9, 5), (46, 50), (0, 37, 71, 26, 64, 31, 1, 40, 2, 5));
}

proof fn lemma_w_15_8()
    ensures
        g2_pt(71, 14, 32, 68).add_defined(g2_pt(18, 69, 94, 11).sneg()),
        g2_pt(71, 14, 32, 68).sadd(g2_pt(18, 69, 94, 11).sneg()) != G2Point::Infinity,
        sproject(g2_pt(71, 14, 32, 68).sadd(g2_pt(18, 69, 94, 11).sneg())) == col_point(7),
{
    lemma_g2_diff_at((71, 14), (32, 68), (18, 69), (94, 11), 57, 77);
    crate::pairing_values::lemma_distort_15();
    crate::pairing_values::lemma_distort_8();
    crate::pairing_values::lemma_g1_neg_at(1, 2);
    crate::pairing_values::lemma_g1_add_at((9, 5), (1, 99), (-1, 93, 63, 58, 64, 58, 46, 40, 51, -24));
}

proof fn lemma_w_15_9()
    ensures
        g2_pt(71, 14, 32, 68).add_defined(g2_pt(83, 80, 84, 22).sneg()),
        g2_pt(71, 14, 32, 68).sadd(g2_pt(83, 80, 84, 22).sneg()) != G2Point::Infinity,
        sproject(g2_pt(71, 14, 32, 68).sadd(g2_pt(83, 80, 84, 22).sneg())) == col_point(6),
{
    lemma_g2_diff_at((71, 14), (32, 68), (83, 80), (84, 22), 44, 56);
    crate::pairing_values::lemma_distort_15();
    crate::pairing_values::lemma_distort_9();
    crate::pairing_values::lemma_g1_neg_at(75, 1);
    crate::pairing_values::lemma_g1_add_at((9, 5), (75, 100), (0, 66, 75, 49, 55, 70, 12, 29, 32, -2));
}

proof fn lemma_w_15_10()
    ensures
        g2_pt(71, 14, 32, 68).add_defined(g2_pt(65, 87, 47, 11).sneg()),
        g2_pt(71, 14, 32, 68).sadd(g2_pt(65, 87, 47, 11).sneg()) != G2Point::Infinity,
        sproject(g2_pt(71, 14, 32, 68).sadd(g2_pt(65, 87, 47, 11).sneg())) == col_point(5),
{
    lemma_g2_diff_at((71, 14), (32, 68), (65, 87), (47, 11), 53, 12);
    crate::pairing_values::lemma_distort_15();
    crate::pairing_values::lemma_distort_10();
    crate::pairing_values::lemma_g1_neg_at(26, 56);
    crate::pairing_values::lemma_g1_add_at((9, 5), (26, 45), (0, 17, 6, 1, 38, 2, 96, 13, 22, -33));
}

proof fn lemma_w_15_11()
    ensures
        g2_pt(71, 14, 32, 68).add_defined(g2_pt(61, 30, 84, 76).sneg()),
        g2_pt(71, 14, 32, 68).sadd(g2_pt(61, 30, 84, 76).sneg()) != G2Point::Infinity,
        sproject(g2_pt(71, 14, 32, 68).sadd(g2_pt(61, 30, 84, 76).sneg())) == col_point(4),
{
    lemma_g2_diff_at((71, 14), (32, 68), (61, 30), (84, 76), 3, 53);
    crate::pairing_values::lemma_distort_15();
    crate::pairing_values::lemma_distort_11();
    crate::pairing_values::lemma_g1_neg_at(58, 36);
    crate::pairing_values::lemma_g1_add_at((9, 5), (58, 65), (0, 49, 33, 16, 61, 19, 18, 36, 52, -6));
}

proof fn lemma_w_15_12()
    ensures
        g2_pt(71, 14, 32, 68).add_defined(g2_pt(29, 87, 70, 40).sneg()),
        g2_pt(71, 14, 32, 68).sadd(g2_pt(29, 87, 70, 40).sneg()) != G2Point::Infinity,
        sproject(g2_pt(71, 14, 32, 68).sadd(g2_pt(29, 87, 70, 40).sneg())) == col_point(3),
{
    lemma_g2_diff_at((71, 14), (32, 68), (29, 87), (70, 40), 70, 23);
    crate::pairing_values::lemma_distort_15();
    crate::pairing_values::lemma_distort_12();
    crate::pairing_values::lemma_g1_neg_at(91, 66);
    crate::pairing_values::lemma_g1_add_at((9, 5), (91, 35), (0, 82, 85, 69, 25, 25, 20, 5, 23, -3));
}

proof fn lemma_w_15_13()
    ensures
        g2_pt(71, 14, 32, 68).add_defined(g2_pt(4, 46, 3, 36).sneg()),
        g2_pt(71, 14, 32, 68).sadd(g2_pt(4, 46, 3, 36).sneg()) != G2Point::Infinity,
        sproject(g2_pt(71, 14, 32, 68).sadd(g2_pt(4, 46, 3, 36).sneg())) == col_point(2),
{
    lemma_g2_diff_at((71, 14), (32, 68), (4, 46), (3, 36), 54, 59);
    crate::pairing_values::lemma_distort_15();
    crate::pairing_values::lemma_distort_13();
    crate::pairing_values::lemma_g1_neg_at(60, 60);
    crate::pairing_values::lemma_g1_add_at((9, 5), (60, 41), (0, 51, 2, 1, 72, 0, 65, 50, 3, -40));
}

proof fn lemma_w_15_14()
    ensures
        g2_pt(71, 14, 32, 68).add_defined(g2_pt(42, 100, 84, 16).sneg()),
        g2_pt(71, 14, 32, 68).sadd(g2_pt(42, 100, 84, 16).sneg()) != G2Point::Infinity,
        sproject(g2_pt(71, 14, 32, 68).sadd(g2_pt(42, 100, 84, 16).sneg())) == col_point(1),
{
    lemma_g2_diff_at((71, 14), (32, 68), (42, 100), (84, 16), 81, 56);
    crate::pairing_values::lemma_distort_15();
    crate::pairing_values::lemma_distort_14();
    crate::pairing_values::lemma_g1_neg_at(32, 42);
    crate::pairing_values::lemma_g1_add_at((9, 5), (32, 59), (0, 23, 22, 5, 77, 11, 30, 58, 95, -17));
}

proof fn lemma_w_15_16()
    ensures
        g2_pt(71, 14, 32, 68).add_defined(g2_pt(93, 48, 94, 99).sneg()),
        g2_pt(71, 14, 32, 68).sadd(g2_pt(93, 48, 94, 99).sneg()) != G2Point::Infinity,
        sproject(g2_pt(71, 14, 32, 68).sadd(g2_pt(93, 48, 94, 99).sneg())) == col_point(33),
{
    lemma_g2_diff_at((71, 14), (32, 68), (93, 48), (94, 99), 16, 24);
    crate::pairing_values::lemma_distort_15();
    crate::pairing_values::lemma_distort_16();
    crate::pairing_values::lemma_g1_neg_at(68, 74);
    crate::pairing_values::lemma_g1_add_at((9, 5), (68, 27), (0, 59, 12, 7, 62, 2, 30, 37, 6, -13));
}

proof fn lemma_w_16_1()
    ensures
        g2_pt(93, 48, 94, 99).add_defined(g2_pt(0, 3, 9, 49).sneg()),
        g2_pt(93, 48, 94, 99).sadd(g2_pt(0, 3, 9, 49).sneg()) != G2Point::Infinity,
        sproject(g2_pt(93, 48, 94, 99).sadd(g2_pt(0, 3, 9, 49).sneg())) == col_point(15),
{
    lemma_g2_diff_at((93, 48), (94, 99), (0, 3), (9, 49), 105, 69);
    crate::pairing_values::lemma_distort_16();
    crate::pairing_values::lemma_distort_1();
    crate::pairing_values::lemma_g1_neg_at(30, 95);
    crate::pairing_values::lemma_g1_add_at((68, 74), (30, 6), (-1, 63, 93, 58, 39, -63, 9, 14, 5, 22));
}

proof fn lemma_w_16_2()
    ensures
        g2_pt(93, 48, 94, 99).add_defined(g2_pt(38, 33, 61, 75).sneg()),
        g2_pt(93, 48, 94, 99).sadd(g2_pt(38, 33, 61, 75).sneg()) != G2Point::Infinity,
        sproject(g2_pt(93, 48, 94, 99).sadd(g2_pt(38, 33, 61, 75).sneg())) == col_point(14),
{
    lemma_g2_diff_at((93, 48), (94, 99), (38, 33), (61, 75), 32, 18);
    crate::pairing_values::lemma_distort_16();
    crate::pairing_values::lemma_distort_2();
    crate::pairing_values::lemma_g1_neg_at(65, 3);
    crate::pairing_values::lemma_g1_add_at((68, 74), (65, 98), (-1, 98, 67, 65, 93, 15, 32, 84, 42, 32));
}

proof fn lemma_w_16_3()
    ensures
        g2_pt(93, 48, 94, 99).add_defined(g2_pt(19, 91, 88, 44).sneg()),
        g2_pt(93, 48, 94, 99).sadd(g2_pt(19, 91, 88, 44).sneg()) != G2Point::Infinity,
        sproject(g2_pt(93, 48, 94, 99).sadd(g2_pt(19, 91, 88, 44).sneg())) == col_point(13),
{
    lemma_g2_diff_at((93, 48), (94, 99), (19, 91), (88, 44), 72, 53);
    crate::pairing_values::lemma_distort_16();
    crate::pairing_values::lemma_distort_3();
    crate::pairing_values::lemma_g1_neg_at(20, 23);
    crate::pairing_values::lemma_g1_add_at((68, 74), (20, 78), (-1, 53, 61, 32, 42, 2, 60, 16, 60, 2));
}

proof fn lemma_w_16_4()
    ensures
        g2_pt(93, 48, 94, 99).add_defined(g2_pt(5, 72, 16, 44).sneg()),
        g2_pt(93, 48, 94, 99).sadd(g2_pt(5, 72, 16, 44).sneg()) != G2Point::Infinity,
        sproject(g2_pt(93, 48, 94, 99).sadd(g2_pt(5, 72, 16, 44).sneg())) == col_point(12),
{
    lemma_g2_diff_at((93, 48), (94, 99), (5, 72), (16, 44), 82, 38);
    crate::pairing_values::lemma_distort_16();
    crate::pairing_values::lemma_distort_4();
    crate::pairing_values::lemma_g1_neg_at(18, 52);
    crate::pairing_values::lemma_g1_add_at((68, 74), (18, 49), (-1, 51, 2, 1, 51, -1, 91, 24, 66, -13));
}

proof fn lemma_w_16_5()
    ensures
        g2_pt(93, 48, 94, 99).add_defined(g2_pt(69, 33, 71, 86).sneg()),
        g2_pt(93, 48, 94, 99).sadd(g2_pt(69, 33, 71, 86).sneg()) != G2Point::Infinity,
        sproject(g2_pt(93, 48, 94, 99).sadd(g2_pt(69, 33, 71, 86).sneg())) == col_point(11),
{
    lemma_g2_diff_at((93, 48), (94, 99), (69, 33), (71, 86), 7, 94);
    crate::pairing_values::lemma_distort_16();
    crate::pairing_values::lemma_distort_5();
    crate::pairing_values::lemma_g1_neg_at(96, 22);
    crate::pairing_values::lemma_g1_add_at((68, 74), (96, 79), (0, 28, 83, 23, 11, 4, 58, -1, 36, 0));
}

proof fn lemma_w_16_6()
    ensures
        g2_pt(93, 48, 94, 99).add_defined(g2_pt(57, 46, 17, 52).sneg()),
        g2_pt(93, 48, 94, 99).sadd(g2_pt(57, 46, 17, 52).sneg()) != G2Point::Infinity,
        sproject(g2_pt(93, 48, 94, 99).sadd(g2_pt(57, 46, 17, 52).sneg())) == col_point(10),
{
    lemma_g2_diff_at((93, 48), (94, 99), (57, 46), (17, 52), 12, 88);
    crate::pairing_values::lemma_distort_16();
    crate::pairing_values::lemma_distort_6();
    crate::pairing_values::lemma_g1_neg_at(12, 32);
    crate::pairing_values::lemma_g1_add_at((68, 74), (12, 69), (-1, 45, 9, 4, 56, -1, 26, 30, 56, 22));
}

proof fn lemma_w_16_7()
    ensures
        g2_pt(93, 48, 94, 99).add_defined(g2_pt(81, 47, 93, 16).sneg()),
        g2_pt(93, 48, 94, 99).sadd(g2_pt(81, 47, 93, 16).sneg()) != G2Point::Infinity,
        sproject(g2_pt(93, 48, 94, 99).sadd(g2_pt(81, 47, 93, 16).sneg())) == col_point(9),
{
    lemma_g2_diff_at((93, 48), (94, 99), (81, 47), (93, 16), 1, 44);
    crate::pairing_values::lemma_distort_16();
    crate::pairing_values::lemma_distort_7();
    crate::pairing_values::lemma_g1_neg_at(46, 51);
    crate::pairing_values::lemma_g1_add_at((68, 74), (46, 50), (-1, 79, 78, 61, 47, -19, 75, 20, 1, -4));
}

proof fn lemma_w_16_8()
    ensures
        g2_pt(93, 48, 94, 99).add_defined(g2_pt(18, 69, 94, 11).sneg()),
        g2_pt(93, 48, 94, 99).sadd(g2_pt(18, 69, 94, 11).sneg()) != G2Point::Infinity,
        sproject(g2_pt(93, 48, 94, 99).sadd(g2_pt(18, 69, 94, 11).sneg())) == col_point(8),
{
    lemma_g2_diff_at((93, 48), (94, 99), (18, 69), (94, 11), 60, 6);
    crate::pairing_values::lemma_distort_16();
    crate::pairing_values::lemma_distort_8();
    crate::pairing_values::lemma_g1_neg_at(1, 2);
    crate::pairing_values::lemma_g1_add_at((68, 74), (1, 99), (-1, 34, 3, 1, 75, 0, 1, 55, 2, 49));
}

proof fn lemma_w_16_9()
    ensures
        g2_pt(93, 48, 94, 99).add_defined(g2_pt(83, 80, 84, 22).sneg()),
        g2_pt(93, 48, 94, 99).sadd(g2_pt(83, 80, 84, 22).sneg()) != G2Point::Infinity,
        sproject(g2_pt(93, 48, 94, 99).sadd(g2_pt(83, 80, 84, 22).sneg())) == col_point(7),
{
    lemma_g2_diff_at((93, 48), (94, 99), (83, 80), (84, 22), 11, 13);
    crate::pairing_values::lemma_distort_16();
    crate::pairing_values::lemma_distort_9();
    crate::pairing_values::lemma_g1_neg_at(75, 1);
    crate::pairing_values::lemma_g1_add_at((68, 74), (75, 100), (0, 7, 29, 2, 47, 7, 46, 20, 51, 9));
}

proof fn lemma_w_16_10()
    ensures
        g2_pt(93, 48, 94, 99).add_defined(g2_pt(65, 87, 47, 11).sneg()),
        g2_pt(93, 48, 94, 99).sadd(g2_pt(65, 87, 47, 11).sneg()) != G2Point::Infinity,
        sproject(g2_pt(93, 48, 94, 99).sadd(g2_pt(65, 87, 47, 11).sneg())) == col_point(6),
{
    lemma_g2_diff_at((93, 48), (94, 99), (65, 87), (47, 11), 22, 83);
    crate::pairing_values::lemma_distort_16();
    crate::pairing_values::lemma_distort_10();
    crate::pairing_values::lemma_g1_neg_at(26, 56);
    crate::pairing_values::lemma_g1_add_at((68, 74), (26, 45), (-1, 59, 12, 7, 56, -4, 12, 30, 32, 30));
}

proof fn lemma_w_16_11()
    ensures
        g2_pt(93, 48, 94, 99).add_defined(g2_pt(61, 30, 84, 76).sneg()),
        g2_pt(93, 48, 94, 99).sadd(g2_pt(61, 30, 84, 76).sneg()) != G2Point::Infinity,
        sproject(g2_pt(93, 48, 94, 99).sadd(g2_pt(61, 30, 84, 76).sneg())) == col_point(5),
{
    lemma_g2_diff_at((93, 48), (94, 99), (61, 30), (84, 76), 13, 35);
    crate::pairing_values::lemma_distort_16();
    crate::pairing_values::lemma_distort_11();
    crate::pairing_values::lemma_g1_neg_at(58, 36);
    crate::pairing_values::lemma_g1_add_at((68, 74), (58, 65), (-1, 91, 10, 9, 11, -1, 96, -1, 22, -4));
}

proof fn lemma_w_16_12()
    ensures
        g2_pt(93, 48, 94, 99).add_defined(g2_pt(29, 87, 70, 40).sneg()),
        g2_pt(93, 48, 94, 99).sadd(g2_pt(29, 87, 70, 40).sneg()) != G2Point::Infinity,
        sproject(g2_pt(93, 48, 94, 99).sadd(g2_pt(29, 87, 70, 40).sneg())) == col_point(4),
{
    lemma_g2_diff_at((93, 48), (94, 99), (29, 87), (70, 40), 55, 62);
    crate::pairing_values::lemma_distort_16();
    crate::pairing_values::lemma_distort_12();
    crate::pairing_values::lemma_g1_neg_at(91, 66);
    crate::pairing_values::lemma_g1_add_at((68, 74), (91, 35), (0, 23, 22, 5, 51, -9, 18, 24, 52, 24));
}

proof fn lemma_w_16_13()
    ensures
        g2_pt(93, 48, 94, 99).add_defined(g2_pt(4, 46, 3, 36).sneg()),
        g2_pt(93, 48, 94, 99).sadd(g2_pt(4, 46, 3, 36).sneg()) != G2Point::Infinity,
        sproject(g2_pt(93, 48, 94, 99).sadd(g2_pt(4, 46, 3, 36).sneg())) == col_point(3),
{
    lemma_g2_diff_at((93, 48), (94, 99), (4, 46), (3, 36), 78, 47);
    crate::pairing_values::lemma_distort_16();
    crate::pairing_values::lemma_distort_13();
    crate::pairing_values::lemma_g1_neg_at(60, 60);
    crate::pairing_values::lemma_g1_add_at((68, 74), (60, 41), (-1, 93, 63, 58, 42, -21, 20, 16, 23, 19));
}

proof fn lemma_w_16_14()
    ensures
        g2_pt(93, 48, 94, 99).add_defined(g2_pt(42, 100, 84, 16).sneg()),
        g2_pt(93, 48, 94, 99).sadd(g2_pt(42, 100, 84, 16).sneg()) != G2Point::Infinity,
        sproject(g2_pt(93, 48, 94, 99).sadd(g2_pt(42, 100, 84, 16).sneg())) == col_point(2),
{
    lemma_g2_diff_at((93, 48), (94, 99), (42, 100), (84, 16), 52, 53);
    crate::pairing_values::lemma_distort_16();
    crate::pairing_values::lemma_distort_14();
    crate::pairing_values::lemma_g1_neg_at(32, 42);
    crate::pairing_values::lemma_g1_add_at((68, 74), (32, 59), (-1, 65, 14, 9, 93, -3, 65, 84, 3, 2));
}

proof fn lemma_w_16_15()
    ensures
        g2_pt(93, 48, 94, 99).add_defined(g2_pt(71, 14, 32, 68).sneg()),
        g2_pt(93, 48, 94, 99).sadd(g2_pt(71, 14, 32, 68).sneg()) != G2Point::Infinity,
        sproject(g2_pt(93, 48, 94, 99).sadd(g2_pt(71, 14, 32, 68).sneg())) == col_point(1),
{
    lemma_g2_diff_at((93, 48), (94, 99), (71, 14), (32, 68), 16, 24);
    crate::pairing_values::lemma_distort_16();
    crate::pairing_values::lemma_distort_15();
    crate::pairing_values::lemma_g1_neg_at(9, 5);
    crate::pairing_values::lemma_g1_add_at((68, 74), (9, 96), (-1, 42, 89, 37, 39, 19, 30, 14, 95, 13));
}

#[verifier::spinoff_prover]
proof fn lemma_h_difference_row_0(z: nat)
    requires
        z < 17,
    ensures
        G2Point::sgenerator().smul(0).add_defined(G2Point::sgenerator().smul(z).sneg()),
        (G2Point::sgenerator().smul(0).sadd(G2Point::sgenerator().smul(z).sneg()) == G2Point::Infinity) <==> 0 == z,
        0 != z ==> sproject(G2Point::sgenerator().smul(0).sadd(G2Point::sgenerator().smul(z).sneg())) == col_point(((0 + 34 - z) % 34) as nat),
{
    crate::g2_multiples::lemma_multiple_0_value();
    if z == 0 {
        crate::g2_multiples::lemma_multiple_0_value();
        assert((0 + 34 - 0) % 34 == 0);
    } else if z == 1 {
        crate::g2_multiples::lemma_multiple_1_value();
        lemma_g2_neg_image(0, 3, 9, 49);
        crate::pairing_values::lemma_distort_1();
        crate::pairing_values::lemma_g1_neg_at(30, 95);
        assert(col_point(33) == g1p(30, 6));
        assert((0 + 34 - 1) % 34 == 33);
    } else if z == 2 {
        crate::g2_multiples::lemma_multiple_2_value();
        lemma_g2_neg_image(38, 33, 61, 75);
        crate::pairing_values::lemma_distort_2();
        crate::pairing_values::lemma_g1_neg_at(65, 3);
        assert(col_point(32) == g1p(65, 98));
        assert((0 + 34 - 2) % 34 == 32);
    } else if z == 3 {
        crate::g2_multiples::lemma_multiple_3_value();
        lemma_g2_neg_image(19, 91, 88, 44);
        crate::pairing_values::lemma_distort_3();
        crate::pairing_values::lemma_g1_neg_at(20, 23);
        assert(col_point(31) == g1p(20, 78));
        assert((0 + 34 - 3) % 34 == 31);
    } else if z == 4 {
        crate::g2_multiples::lemma_multiple_4_value();
        lemma_g2_neg_image(5, 72, 16, 44);
        crate::pairing_values::lemma_distort_4();
        crate::pairing_values::lemma_g1_neg_at(18, 52);
        assert(col_point(30) == g1p(18, 49));
        assert((0 + 34 - 4) % 34 == 30);
    } else if z == 5 {
        crate::g2_multiples::lemma_multiple_5_value();
        lemma_g2_neg_image(69, 33, 71, 86);
        crate::pairing_values::lemma_distort_5();
        crate::pairing_values::lemma_g1_neg_at(96, 22);
        assert(col_point(29) == g1p(96, 79));
        assert((0 + 34 - 5) % 34 == 29);
    } else if z == 6 {
        crate::g2_multiples::lemma_multiple_6_value();
        lemma_g2_neg_image(57, 46, 17, 52);
        crate::pairing_values::lemma_distort_6();
        crate::pairing_values::lemma_g1_neg_at(12, 32);
        assert(col_point(28) == g1p(12, 69));
        assert((0 + 34 - 6) % 34 == 28);
    } else if z == 7 {
        crate::g2_multiples::lemma_multiple_7_value();
        lemma_g2_neg_image(81, 47, 93, 16);
        crate::pairing_values::lemma_distort_7();
        crate::pairing_values::lemma_g1_neg_at(46, 51);
        assert(col_point(27) == g1p(46, 50));
        assert((0 + 34 - 7) % 34 == 27);
    } else if z == 8 {
        crate::g2_multiples::lemma_multiple_8_value();
        lemma_g2_neg_image(18, 69, 94, 11);
        crate::pairing_values::lemma_distort_8();
        crate::pairing_values::lemma_g1_neg_at(1, 2);
        assert(col_point(26) == g1p(1, 99));
        assert((0 + 34 - 8) % 34 == 26);
    } else if z == 9 {
        crate::g2_multiples::lemma_multiple_9_value();
        lemma_g2_neg_image(83, 80, 84, 22);
        crate::pairing_values::lemma_distort_9();
        crate::pairing_values::lemma_g1_neg_at(75, 1);
        assert(col_point(25) == g1p(75, 100));
        assert((0 + 34 - 9) % 34 == 25);
    } else if z == 10 {
        crate::g2_multiples::lemma_multiple_10_value();
        lemma_g2_neg_image(65, 87, 47, 11);
        crate::pairing_values::lemma_distort_10();
        crate::pairing_values::lemma_g1_neg_at(26, 56);
        assert(col_point(24) == g1p(26, 45));
        assert((0 + 34 - 10) % 34 == 24);
    } else if z == 11 {
        crate::g2_multiples::lemma_multiple_11_value();
        lemma_g2_neg_image(61, 30, 84, 76);
        crate::pairing_values::lemma_distort_11();
        crate::pairing_values::lemma_g1_neg_at(58, 36);
        assert(col_point(23) == g1p(58, 65));
        assert((0 + 34 - 11) % 34 == 23);
    } else if z == 12 {
        crate::g2_multiples::lemma_multiple_12_value();
        lemma_g2_neg_image(29, 87, 70, 40);
        crate::pairing_values::lemma_distort_12();
        crate::pairing_values::lemma_g1_neg_at(91, 66);
        assert(col_point(22) == g1p(91, 35));
        assert((0 + 34 - 12) % 34 == 22);
    } else if z == 13 {
        crate::g2_multiples::lemma_multiple_13_value();
        lemma_g2_neg_image(4, 46, 3, 36);
        crate::pairing_values::lemma_distort_13();
        crate::pairing_values::lemma_g1_neg_at(60, 60);
        assert(col_point(21) == g1p(60, 41));
        assert((0 + 34 - 13) % 34 == 21);
    } else if z == 14 {
        crate::g2_multiples::lemma_multiple_14_value();
        lemma_g2_neg_image(42, 100, 84, 16);
        crate::pairing_values::lemma_distort_14();
        crate::pairing_values::lemma_g1_neg_at(32, 42);
        assert(col_point(20) == g1p(32, 59));
        assert((0 + 34 - 14) % 34 == 20);
    } else if z == 15 {
        crate::g2_multiples::lemma_multiple_15_value();
        lemma_g2_neg_image(71, 14, 32, 68);
        crate::pairing_values::lemma_distort_15();
        crate::pairing_values::lemma_g1_neg_at(9, 5);
        assert(col_point(19) == g1p(9, 96));
        assert((0 + 34 - 15) % 34 == 19);
    } else if z == 16 {
        crate::g2_multiples::lemma_multiple_16_value();
        lemma_g2_neg_image(93, 48, 94, 99);
        crate::pairing_values::lemma_distort_16();
        crate::pairing_values::lemma_g1_neg_at(68, 74);
        assert(col_point(18) == g1p(68, 27));
        assert((0 + 34 - 16) % 34 == 18);
    }
}

#[verifier::spinoff_prover]
proof fn lemma_h_difference_row_1(z: nat)
    requires
        z < 17,
    ensures
        G2Point::sgenerator().smul(1).add_defined(G2Point::sgenerator().smul(z).sneg()),
        (G2Point::sgenerator().smul(1).sadd(G2Point::sgenerator().smul(z).sneg()) == G2Point::Infinity) <==> 1 == z,
        1 != z ==> sproject(G2Point::sgenerator().smul(1).sadd(G2Point::sgenerator().smul(z).sneg())) == col_point(((1 + 34 - z) % 34) as nat),
{
    crate::g2_multiples::lemma_multiple_1_value();
    if z == 0 {
        crate::g2_multiples::lemma_multiple_0_value();
        crate::pairing_values::lemma_distort_1();
        assert(col_point(1) == g1p(30, 95));
        assert((1 + 34 - 0) % 34 == 1);
    } else if z == 1 {
        crate::g2_multiples::lemma_multiple_1_value();
        lemma_g2_self_diff(0, 3, 9, 49);
        assert((1 + 34 - 1) % 34 == 0);
    } else if z == 2 {
        crate::g2_multiples::lemma_multiple_2_value();
        lemma_w_1_2();
        assert((1 + 34 - 2) % 34 == 33);
    } else if z == 3 {
        crate::g2_multiples::lemma_multiple_3_value();
        lemma_w_1_3();
        assert((1 + 34 - 3) % 34 == 32);
    } else if z == 4 {
        crate::g2_multiples::lemma_multiple_4_value();
        lemma_w_1_4();
        assert((1 + 34 - 4) % 34 == 31);
    } else if z == 5 {
        crate::g2_multiples::lemma_multiple_5_value();
        lemma_w_1_5();
        assert((1 + 34 - 5) % 34 == 30);
    } else if z == 6 {
        crate::g2_multiples::lemma_multiple_6_value();
        lemma_w_1_6();
        assert((1 + 34 - 6) % 34 == 29);
    } else if z == 7 {
        crate::g2_multiples::lemma_multiple_7_value();
        lemma_w_1_7();
        assert((1 + 34 - 7) % 34 == 28);
    } else if z == 8 {
        crate::g2_multiples::lemma_multiple_8_value();
        lemma_w_1_8();
        assert((1 + 34 - 8) % 34 == 27);
    } else if z == 9 {
        crate::g2_multiples::lemma_multiple_9_value();
        lemma_w_1_9();
        assert((1 + 34 - 9) % 34 == 26);
    } else if z == 10 {
        crate::g2_multiples::lemma_multiple_10_value();
        lemma_w_1_10();
        assert((1 + 34 - 10) % 34 == 25);
    } else if z == 11 {
        crate::g2_multiples::lemma_multiple_11_value();
        lemma_w_1_11();
        assert((1 + 34 - 11) % 34 == 24);
    } else if z == 12 {
        crate::g2_multiples::lemma_multiple_12_value();
        lemma_w_1_12();
        assert((1 + 34 - 12) % 34 == 23);
    } else if z == 13 {
        crate::g2_multiples::lemma_multiple_13_value();
        lemma_w_1_13();
        assert((1 + 34 - 13) % 34 == 22);
    } else if z == 14 {
        crate::g2_multiples::lemma_multiple_14_value();
        lemma_w_1_14();
        assert((1 + 34 - 14) % 34 == 21);
    } else if z == 15 {
        crate::g2_multiples::lemma_multiple_15_value();
        lemma_w_1_15();
        assert((1 + 34 - 15) % 34 == 20);
    } else if z == 16 {
        crate::g2_multiples::lemma_multiple_16_value();
        lemma_w_1_16();
        assert((1 + 34 - 16) % 34 == 19);
    }
}

#[verifier::spinoff_prover]
proof fn lemma_h_difference_row_2(z: nat)
    requires
        z < 17,
    ensures
        G2Point::sgenerator().smul(2).add_defined(G2Point::sgenerator().smul(z).sneg()),
        (G2Point::sgenerator().smul(2).sadd(G2Point::sgenerator().smul(z).sneg()) == G2Point::Infinity) <==> 2 == z,
        2 != z ==> sproject(G2Point::sgenerator().smul(2).sadd(G2Point::sgenerator().smul(z).sneg())) == col_point(((2 + 34 - z) % 34) as nat),
{
    crate::g2_multiples::lemma_multiple_2_value();
    if z == 0 {
        crate::g2_multiples::lemma_multiple_0_value();
        crate::pairing_values::lemma_distort_2();
        assert(col_point(2) == g1p(65, 3));
        assert((2 + 34 - 0) % 34 == 2);
    } else if z == 1 {
        crate::g2_multiples::lemma_multiple_1_value();
        lemma_w_2_1();
        assert((2 + 34 - 1) % 34 == 1);
    } else if z == 2 {
        crate::g2_multiples::lemma_multiple_2_value();
        lemma_g2_self_diff(38, 33, 61, 75);
        assert((2 + 34 - 2) % 34 == 0);
    } else if z == 3 {
        crate::g2_multiples::lemma_multiple_3_value();
        lemma_w_2_3();
        assert((2 + 34 - 3) % 34 == 33);
    } else if z == 4 {
        crate::g2_multiples::lemma_multiple_4_value();
        lemma_w_2_4();
        assert((2 + 34 - 4) % 34 == 32);
    } else if z == 5 {
        crate::g2_multiples::lemma_multiple_5_value();
        lemma_w_2_5();
        assert((2 + 34 - 5) % 34 == 31);
    } else if z == 6 {
        crate::g2_multiples::lemma_multiple_6_value();
        lemma_w_2_6();
        assert((2 + 34 - 6) % 34 == 30);
    } else if z == 7 {
        crate::g2_multiples::lemma_multiple_7_value();
        lemma_w_2_7();
        assert((2 + 34 - 7) % 34 == 29);
    } else if z == 8 {
        crate::g2_multiples::lemma_multiple_8_value();
        lemma_w_2_8();
        assert((2 + 34 - 8) % 34 == 28);
    } else if z == 9 {
        crate::g2_multiples::lemma_multiple_9_value();
        lemma_w_2_9();
        assert((2 + 34 - 9) % 34 == 27);
    } else if z == 10 {
        crate::g2_multiples::lemma_multiple_10_value();
        lemma_w_2_10();
        assert((2 + 34 - 10) % 34 == 26);
    } else if z == 11 {
        crate::g2_multiples::lemma_multiple_11_value();
        lemma_w_2_11();
        assert((2 + 34 - 11) % 34 == 25);
    } else if z == 12 {
        crate::g2_multiples::lemma_multiple_12_value();
        lemma_w_2_12();
        assert((2 + 34 - 12) % 34 == 24);
    } else if z == 13 {
        crate::g2_multiples::lemma_multiple_13_value();
        lemma_w_2_13();
        assert((2 + 34 - 13) % 34 == 23);
    } else if z == 14 {
        crate::g2_multiples::lemma_multiple_14_value();
        lemma_w_2_14();
        assert((2 + 34 - 14) % 34 == 22);
    } else if z == 15 {
        crate::g2_multiples::lemma_multiple_15_value();
        lemma_w_2_15();
        assert((2 + 34 - 15) % 34 == 21);
    } else if z == 16 {
        crate::g2_multiples::lemma_multiple_16_value();
        lemma_w_2_16();
        assert((2 + 34 - 16) % 34 == 20);
    }
}

#[verifier::spinoff_prover]
proof fn lemma_h_difference_row_3(z: nat)
    requires
        z < 17,
    ensures
        G2Point::sgenerator().smul(3).add_defined(G2Point::sgenerator().smul(z).sneg()),
        (G2Point::sgenerator().smul(3).sadd(G2Point::sgenerator().smul(z).sneg()) == G2Point::Infinity) <==> 3 == z,
        3 != z ==> sproject(G2Point::sgenerator().smul(3).sadd(G2Point::sgenerator().smul(z).sneg())) == col_point(((3 + 34 - z) % 34) as nat),
{
    crate::g2_multiples::lemma_multiple_3_value();
    if z == 0 {
        crate::g2_multiples::lemma_multiple_0_value();
        crate::pairing_values::lemma_distort_3();
        assert(col_point(3) == g1p(20, 23));
        assert((3 + 34 - 0) % 34 == 3);
    } else if z == 1 {
        crate::g2_multiples::lemma_multiple_1_value();
        lemma_w_3_1();
        assert((3 + 34 - 1) % 34 == 2);
    } else if z == 2 {
        crate::g2_multiples::lemma_multiple_2_value();
        lemma_w_3_2();
        assert((3 + 34 - 2) % 34 == 1);
    } else if z == 3 {
        crate::g2_multiples::lemma_multiple_3_value();
        lemma_g2_self_diff(19, 91, 88, 44);
        assert((3 + 34 - 3) % 34 == 0);
    } else if z == 4 {
        crate::g2_multiples::lemma_multiple_4_value();
        lemma_w_3_4();
        assert((3 + 34 - 4) % 34 == 33);
    } else if z == 5 {
        crate::g2_multiples::lemma_multiple_5_value();
        lemma_w_3_5();
        assert((3 + 34 - 5) % 34 == 32);
    } else if z == 6 {
        crate::g2_multiples::lemma_multiple_6_value();
        lemma_w_3_6();
        assert((3 + 34 - 6) % 34 == 31);
    } else if z == 7 {
        crate::g2_multiples::lemma_multiple_7_value();
        lemma_w_3_7();
        assert((3 + 34 - 7) % 34 == 30);
    } else if z == 8 {
        crate::g2_multiples::lemma_multiple_8_value();
        lemma_w_3_8();
        assert((3 + 34 - 8) % 34 == 29);
    } else if z == 9 {
        crate::g2_multiples::lemma_multiple_9_value();
        lemma_w_3_9();
        assert((3 + 34 - 9) % 34 == 28);
    } else if z == 10 {
        crate::g2_multiples::lemma_multiple_10_value();
        lemma_w_3_10();
        assert((3 + 34 - 10) % 34 == 27);
    } else if z == 11 {
        crate::g2_multiples::lemma_multiple_11_value();
        lemma_w_3_11();
        assert((3 + 34 - 11) % 34 == 26);
    } else if z == 12 {
        crate::g2_multiples::lemma_multiple_12_value();
        lemma_w_3_12();
        assert((3 + 34 - 12) % 34 == 25);
    } else if z == 13 {
        crate::g2_multiples::lemma_multiple_13_value();
        lemma_w_3_13();
        assert((3 + 34 - 13) % 34 == 24);
    } else if z == 14 {
        crate::g2_multiples::lemma_multiple_14_value();
        lemma_w_3_14();
        assert((3 + 34 - 14) % 34 == 23);
    } else if z == 15 {
        crate::g2_multiples::lemma_multiple_15_value();
        lemma_w_3_15();
        assert((3 + 34 - 15) % 34 == 22);
    } else if z == 16 {
        crate::g2_multiples::lemma_multiple_16_value();
        lemma_w_3_16();
        assert((3 + 34 - 16) % 34 == 21);
    }
}

#[verifier::spinoff_prover]
proof fn lemma_h_difference_row_4(z: nat)
    requires
        z < 17,
    ensures
        G2Point::sgenerator().smul(4).add_defined(G2Point::sgenerator().smul(z).sneg()),
        (G2Point::sgenerator().smul(4).sadd(G2Point::sgenerator().smul(z).sneg()) == G2Point::Infinity) <==> 4 == z,
        4 != z ==> sproject(G2Point::sgenerator().smul(4).sadd(G2Point::sgenerator().smul(z).sneg())) == col_point(((4 + 34 - z) % 34) as nat),
{
    crate::g2_multiples::lemma_multiple_4_value();
    if z == 0 {
        crate::g2_multiples::lemma_multiple_0_value();
        crate::pairing_values::lemma_distort_4();
        assert(col_point(4) == g1p(18, 52));
        assert((4 + 34 - 0) % 34 == 4);
    } else if z == 1 {
        crate::g2_multiples::lemma_multiple_1_value();
        lemma_w_4_1();
        assert((4 + 34 - 1) % 34 == 3);
    } else if z == 2 {
        crate::g2_multiples::lemma_multiple_2_value();
        lemma_w_4_2();
        assert((4 + 34 - 2) % 34 == 2);
    } else if z == 3 {
        crate::g2_multiples::lemma_multiple_3_value();
        lemma_w_4_3();
        assert((4 + 34 - 3) % 34 == 1);
    } else if z == 4 {
        crate::g2_multiples::lemma_multiple_4_value();
        lemma_g2_self_diff(5, 72, 16, 44);
        assert((4 + 34 - 4) % 34 == 0);
    } else if z == 5 {
        crate::g2_multiples::lemma_multiple_5_value();
        lemma_w_4_5();
        assert((4 + 34 - 5) % 34 == 33);
    } else if z == 6 {
        crate::g2_multiples::lemma_multiple_6_value();
        lemma_w_4_6();
        assert((4 + 34 - 6) % 34 == 32);
    } else if z == 7 {
        crate::g2_multiples::lemma_multiple_7_value();
        lemma_w_4_7();
        assert((4 + 34 - 7) % 34 == 31);
    } else if z == 8 {
        crate::g2_multiples::lemma_multiple_8_value();
        lemma_w_4_8();
        assert((4 + 34 - 8) % 34 == 30);
    } else if z == 9 {
        crate::g2_multiples::lemma_multiple_9_value();
        lemma_w_4_9();
        assert((4 + 34 - 9) % 34 == 29);
    } else if z == 10 {
        crate::g2_multiples::lemma_multiple_10_value();
        lemma_w_4_10();
        assert((4 + 34 - 10) % 34 == 28);
    } else if z == 11 {
        crate::g2_multiples::lemma_multiple_11_value();
        lemma_w_4_11();
        assert((4 + 34 - 11) % 34 == 27);
    } else if z == 12 {
        crate::g2_multiples::lemma_multiple_12_value();
        lemma_w_4_12();
        assert((4 + 34 - 12) % 34 == 26);
    } else if z == 13 {
        crate::g2_multiples::lemma_multiple_13_value();
        lemma_w_4_13();
        assert((4 + 34 - 13) % 34 == 25);
    } else if z == 14 {
        crate::g2_multiples::lemma_multiple_14_value();
        lemma_w_4_14();
        assert((4 + 34 - 14) % 34 == 24);
    } else if z == 15 {
        crate::g2_multiples::lemma_multiple_15_value();
        lemma_w_4_15();
        assert((4 + 34 - 15) % 34 == 23);
    } else if z == 16 {
        crate::g2_multiples::lemma_multiple_16_value();
        lemma_w_4_16();
        assert((4 + 34 - 16) % 34 == 22);
    }
}

#[verifier::spinoff_prover]
proof fn lemma_h_difference_row_5(z: nat)
    requires
        z < 17,
    ensures
        G2Point::sgenerator().smul(5).add_defined(G2Point::sgenerator().smul(z).sneg()),
        (G2Point::sgenerator().smul(5).sadd(G2Point::sgenerator().smul(z).sneg()) == G2Point::Infinity) <==> 5 == z,
        5 != z ==> sproject(G2Point::sgenerator().smul(5).sadd(G2Point::sgenerator().smul(z).sneg())) == col_point(((5 + 34 - z) % 34) as nat),
{
    crate::g2_multiples::lemma_multiple_5_value();
    if z == 0 {
        crate::g2_multiples::lemma_multiple_0_value();
        crate::pairing_values::lemma_distort_5();
        assert(col_point(5) == g1p(96, 22));
        assert((5 + 34 - 0) % 34 == 5);
    } else if z == 1 {
        crate::g2_multiples::lemma_multiple_1_value();
        lemma_w_5_1();
        assert((5 + 34 - 1) % 34 == 4);
    } else if z == 2 {
        crate::g2_multiples::lemma_multiple_2_value();
        lemma_w_5_2();
        assert((5 + 34 - 2) % 34 == 3);
    } else if z == 3 {
        crate::g2_multiples::lemma_multiple_3_value();
        lemma_w_5_3();
        assert((5 + 34 - 3) % 34 == 2);
    } else if z == 4 {
        crate::g2_multiples::lemma_multiple_4_value();
        lemma_w_5_4();
        assert((5 + 34 - 4) % 34 == 1);
    } else if z == 5 {
        crate::g2_multiples::lemma_multiple_5_value();
        lemma_g2_self_diff(69, 33, 71, 86);
        assert((5 + 34 - 5) % 34 == 0);
    } else if z == 6 {
        crate::g2_multiples::lemma_multiple_6_value();
        lemma_w_5_6();
        assert((5 + 34 - 6) % 34 == 33);
    } else if z == 7 {
        crate::g2_multiples::lemma_multiple_7_value();
        lemma_w_5_7();
        assert((5 + 34 - 7) % 34 == 32);
    } else if z == 8 {
        crate::g2_multiples::lemma_multiple_8_value();
        lemma_w_5_8();
        assert((5 + 34 - 8) % 34 == 31);
    } else if z == 9 {
        crate::g2_multiples::lemma_multiple_9_value();
        lemma_w_5_9();
        assert((5 + 34 - 9) % 34 == 30);
    } else if z == 10 {
        crate::g2_multiples::lemma_multiple_10_value();
        lemma_w_5_10();
        assert((5 + 34 - 10) % 34 == 29);
    } else if z == 11 {
        crate::g2_multiples::lemma_multiple_11_value();
        lemma_w_5_11();
        assert((5 + 34 - 11) % 34 == 28);
    } else if z == 12 {
        crate::g2_multiples::lemma_multiple_12_value();
        lemma_w_5_12();
        assert((5 + 34 - 12) % 34 == 27);
    } else if z == 13 {
        crate::g2_multiples::lemma_multiple_13_value();
        lemma_w_5_13();
        assert((5 + 34 - 13) % 34 == 26);
    } else if z == 14 {
        crate::g2_multiples::lemma_multiple_14_value();
        lemma_w_5_14();
        assert((5 + 34 - 14) % 34 == 25);
    } else if z == 15 {
        crate::g2_multiples::lemma_multiple_15_value();
        lemma_w_5_15();
        assert((5 + 34 - 15) % 34 == 24);
    } else if z == 16 {
        crate::g2_multiples::lemma_multiple_16_value();
        lemma_w_5_16();
        assert((5 + 34 - 16) % 34 == 23);
    }
}

#[verifier::spinoff_prover]
proof fn lemma_h_difference_row_6(z: nat)
    requires
        z < 17,
    ensures
        G2Point::sgenerator().smul(6).add_defined(G2Point::sgenerator().smul(z).sneg()),
        (G2Point::sgenerator().smul(6).sadd(G2Point::sgenerator().smul(z).sneg()) == G2Point::Infinity) <==> 6 == z,
        6 != z ==> sproject(G2Point::sgenerator().smul(6).sadd(G2Point::sgenerator().smul(z).sneg())) == col_point(((6 + 34 - z) % 34) as nat),
{
    crate::g2_multiples::lemma_multiple_6_value();
    if z == 0 {
        crate::g2_multiples::lemma_multiple_0_value();
        crate::pairing_values::lemma_distort_6();
        assert(col_point(6) == g1p(12, 32));
        assert((6 + 34 - 0) % 34 == 6);
    } else if z == 1 {
        crate::g2_multiples::lemma_multiple_1_value();
        lemma_w_6_1();
        assert((6 + 34 - 1) % 34 == 5);
    } else if z == 2 {
        crate::g2_multiples::lemma_multiple_2_value();
        lemma_w_6_2();
        assert((6 + 34 - 2) % 34 == 4);
    } else if z == 3 {
        crate::g2_multiples::lemma_multiple_3_value();
        lemma_w_6_3();
        assert((6 + 34 - 3) % 34 == 3);
    } else if z == 4 {
        crate::g2_multiples::lemma_multiple_4_value();
        lemma_w_6_4();
        assert((6 + 34 - 4) % 34 == 2);
    } else if z == 5 {
        crate::g2_multiples::lemma_multiple_5_value();
        lemma_w_6_5();
        assert((6 + 34 - 5) % 34 == 1);
    } else if z == 6 {
        crate::g2_multiples::lemma_multiple_6_value();
        lemma_g2_self_diff(57, 46, 17, 52);
        assert((6 + 34 - 6) % 34 == 0);
    } else if z == 7 {
        crate::g2_multiples::lemma_multiple_7_value();
        lemma_w_6_7();
        assert((6 + 34 - 7) % 34 == 33);
    } else if z == 8 {
        crate::g2_multiples::lemma_multiple_8_value();
        lemma_w_6_8();
        assert((6 + 34 - 8) % 34 == 32);
    } else if z == 9 {
        crate::g2_multiples::lemma_multiple_9_value();
        lemma_w_6_9();
        assert((6 + 34 - 9) % 34 == 31);
    } else if z == 10 {
        crate::g2_multiples::lemma_multiple_10_value();
        lemma_w_6_10();
        assert((6 + 34 - 10) % 34 == 30);
    } else if z == 11 {
        crate::g2_multiples::lemma_multiple_11_value();
        lemma_w_6_11();
        assert((6 + 34 - 11) % 34 == 29);
    } else if z == 12 {
        crate::g2_multiples::lemma_multiple_12_value();
        lemma_w_6_12();
        assert((6 + 34 - 12) % 34 == 28);
    } else if z == 13 {
        crate::g2_multiples::lemma_multiple_13_value();
        lemma_w_6_13();
        assert((6 + 34 - 13) % 34 == 27);
    } else if z == 14 {
        crate::g2_multiples::lemma_multiple_14_value();
        lemma_w_6_14();
        assert((6 + 34 - 14) % 34 == 26);
    } else if z == 15 {
        crate::g2_multiples::lemma_multiple_15_value();
        lemma_w_6_15();
        assert((6 + 34 - 15) % 34 == 25);
    } else if z == 16 {
        crate::g2_multiples::lemma_multiple_16_value();
        lemma_w_6_16();
        assert((6 + 34 - 16) % 34 == 24);
    }
}

#[verifier::spinoff_prover]
proof fn lemma_h_difference_row_7(z: nat)
    requires
        z < 17,
    ensures
        G2Point::sgenerator().smul(7).add_defined(G2Point::sgenerator().smul(z).sneg()),
        (G2Point::sgenerator().smul(7).sadd(G2Point::sgenerator().smul(z).sneg()) == G2Point::Infinity) <==> 7 == z,
        7 != z ==> sproject(G2Point::sgenerator().smul(7).sadd(G2Point::sgenerator().smul(z).sneg())) == col_point(((7 + 34 - z) % 34) as nat),
{
    crate::g2_multiples::lemma_multiple_7_value();
    if z == 0 {
        crate::g2_multiples::lemma_multiple_0_value();
        crate::pairing_values::lemma_distort_7();
        assert(col_point(7) == g1p(46, 51));
        assert((7 + 34 - 0) % 34 == 7);
    } else if z == 1 {
        crate::g2_multiples::lemma_multiple_1_value();
        lemma_w_7_1();
        assert((7 + 34 - 1) % 34 == 6);
    } else if z == 2 {
        crate::g2_multiples::lemma_multiple_2_value();
        lemma_w_7_2();
        assert((7 + 34 - 2) % 34 == 5);
    } else if z == 3 {
        crate::g2_multiples::lemma_multiple_3_value();
        lemma_w_7_3();
        assert((7 + 34 - 3) % 34 == 4);
    } else if z == 4 {
        crate::g2_multiples::lemma_multiple_4_value();
        lemma_w_7_4();
        assert((7 + 34 - 4) % 34 == 3);
    } else if z == 5 {
        crate::g2_multiples::lemma_multiple_5_value();
        lemma_w_7_5();
        assert((7 + 34 - 5) % 34 == 2);
    } else if z == 6 {
        crate::g2_multiples::lemma_multiple_6_value();
        lemma_w_7_6();
        assert((7 + 34 - 6) % 34 == 1);
    } else if z == 7 {
        crate::g2_multiples::lemma_multiple_7_value();
        lemma_g2_self_diff(81, 47, 93, 16);
        assert((7 + 34 - 7) % 34 == 0);
    } else if z == 8 {
        crate::g2_multiples::lemma_multiple_8_value();
        lemma_w_7_8();
        assert((7 + 34 - 8) % 34 == 33);
    } else if z == 9 {
        crate::g2_multiples::lemma_multiple_9_value();
        lemma_w_7_9();
        assert((7 + 34 - 9) % 34 == 32);
    } else if z == 10 {
        crate::g2_multiples::lemma_multiple_10_value();
        lemma_w_7_10();
        assert((7 + 34 - 10) % 34 == 31);
    } else if z == 11 {
        crate::g2_multiples::lemma_multiple_11_value();
        lemma_w_7_11();
        assert((7 + 34 - 11) % 34 == 30);
    } else if z == 12 {
        crate::g2_multiples::lemma_multiple_12_value();
        lemma_w_7_12();
        assert((7 + 34 - 12) % 34 == 29);
    } else if z == 13 {
        crate::g2_multiples::lemma_multiple_13_value();
        lemma_w_7_13();
        assert((7 + 34 - 13) % 34 == 28);
    } else if z == 14 {
        crate::g2_multiples::lemma_multiple_14_value();
        lemma_w_7_14();
        assert((7 + 34 - 14) % 34 == 27);
    } else if z == 15 {
        crate::g2_multiples::lemma_multiple_15_value();
        lemma_w_7_15();
        assert((7 + 34 - 15) % 34 == 26);
    } else if z == 16 {
        crate::g2_multiples::lemma_multiple_16_value();
        lemma_w_7_16();
        assert((7 + 34 - 16) % 34 == 25);
    }
}

#[verifier::spinoff_prover]
proof fn lemma_h_difference_row_8(z: nat)
    requires
        z < 17,
    ensures
        G2Point::sgenerator().smul(8).add_defined(G2Point::sgenerator().smul(z).sneg()),
        (G2Point::sgenerator().smul(8).sadd(G2Point::sgenerator().smul(z).sneg()) == G2Point::Infinity) <==> 8 == z,
        8 != z ==> sproject(G2Point::sgenerator().smul(8).sadd(G2Point::sgenerator().smul(z).sneg())) == col_point(((8 + 34 - z) % 34) as nat),
{
    crate::g2_multiples::lemma_multiple_8_value();
    if z == 0 {
        crate::g2_multiples::lemma_multiple_0_value();
        crate::pairing_values::lemma_distort_8();
        assert(col_point(8) == g1p(1, 2));
        assert((8 + 34 - 0) % 34 == 8);
    } else if z == 1 {
        crate::g2_multiples::lemma_multiple_1_value();
        lemma_w_8_1();
        assert((8 + 34 - 1) % 34 == 7);
    } else if z == 2 {
        crate::g2_multiples::lemma_multiple_2_value();
        lemma_w_8_2();
        assert((8 + 34 - 2) % 34 == 6);
    } else if z == 3 {
        crate::g2_multiples::lemma_multiple_3_value();
        lemma_w_8_3();
        assert((8 + 34 - 3) % 34 == 5);
    } else if z == 4 {
        crate::g2_multiples::lemma_multiple_4_value();
        lemma_w_8_4();
        assert((8 + 34 - 4) % 34 == 4);
    } else if z == 5 {
        crate::g2_multiples::lemma_multiple_5_value();
        lemma_w_8_5();
        assert((8 + 34 - 5) % 34 == 3);
    } else if z == 6 {
        crate::g2_multiples::lemma_multiple_6_value();
        lemma_w_8_6();
        assert((8 + 34 - 6) % 34 == 2);
    } else if z == 7 {
        crate::g2_multiples::lemma_multiple_7_value();
        lemma_w_8_7();
        assert((8 + 34 - 7) % 34 == 1);
    } else if z == 8 {
        crate::g2_multiples::lemma_multiple_8_value();
        lemma_g2_self_diff(18, 69, 94, 11);
        assert((8 + 34 - 8) % 34 == 0);
    } else if z == 9 {
        crate::g2_multiples::lemma_multiple_9_value();
        lemma_w_8_9();
        assert((8 + 34 - 9) % 34 == 33);
    } else if z == 10 {
        crate::g2_multiples::lemma_multiple_10_value();
        lemma_w_8_10();
        assert((8 + 34 - 10) % 34 == 32);
    } else if z == 11 {
        crate::g2_multiples::lemma_multiple_11_value();
        lemma_w_8_11();
        assert((8 + 34 - 11) % 34 == 31);
    } else if z == 12 {
        crate::g2_multiples::lemma_multiple_12_value();
        lemma_w_8_12();
        assert((8 + 34 - 12) % 34 == 30);
    } else if z == 13 {
        crate::g2_multiples::lemma_multiple_13_value();
        lemma_w_8_13();
        assert((8 + 34 - 13) % 34 == 29);
    } else if z == 14 {
        crate::g2_multiples::lemma_multiple_14_value();
        lemma_w_8_14();
        assert((8 + 34 - 14) % 34 == 28);
    } else if z == 15 {
        crate::g2_multiples::lemma_multiple_15_value();
        lemma_w_8_15();
        assert((8 + 34 - 15) % 34 == 27);
    } else if z == 16 {
        crate::g2_multiples::lemma_multiple_16_value();
        lemma_w_8_16();
        assert((8 + 34 - 16) % 34 == 26);
    }
}

#[verifier::spinoff_prover]
proof fn lemma_h_difference_row_9(z: nat)
    requires
        z < 17,
    ensures
        G2Point::sgenerator().smul(9).add_defined(G2Point::sgenerator().smul(z).sneg()),
        (G2Point::sgenerator().smul(9).sadd(G2Point::sgenerator().smul(z).sneg()) == G2Point::Infinity) <==> 9 == z,
        9 != z ==> sproject(G2Point::sgenerator().smul(9).sadd(G2Point::sgenerator().smul(z).sneg())) == col_point(((9 + 34 - z) % 34) as nat),
{
    crate::g2_multiples::lemma_multiple_9_value();
    if z == 0 {
        crate::g2_multiples::lemma_multiple_0_value();
        crate::pairing_values::lemma_distort_9();
        assert(col_point(9) == g1p(75, 1));
        assert((9 + 34 - 0) % 34 == 9);
    } else if z == 1 {
        crate::g2_multiples::lemma_multiple_1_value();
        lemma_w_9_1();
        assert((9 + 34 - 1) % 34 == 8);
    } else if z == 2 {
        crate::g2_multiples::lemma_multiple_2_value();
        lemma_w_9_2();
        assert((9 + 34 - 2) % 34 == 7);
    } else if z == 3 {
        crate::g2_multiples::lemma_multiple_3_value();
        lemma_w_9_3();
        assert((9 + 34 - 3) % 34 == 6);
    } else if z == 4 {
        crate::g2_multiples::lemma_multiple_4_value();
        lemma_w_9_4();
        assert((9 + 34 - 4) % 34 == 5);
    } else if z == 5 {
        crate::g2_multiples::lemma_multiple_5_value();
        lemma_w_9_5();
        assert((9 + 34 - 5) % 34 == 4);
    } else if z == 6 {
        crate::g2_multiples::lemma_multiple_6_value();
        lemma_w_9_6();
        assert((9 + 34 - 6) % 34 == 3);
    } else if z == 7 {
        crate::g2_multiples::lemma_multiple_7_value();
        lemma_w_9_7();
        assert((9 + 34 - 7) % 34 == 2);
    } else if z == 8 {
        crate::g2_multiples::lemma_multiple_8_value();
        lemma_w_9_8();
        assert((9 + 34 - 8) % 34 == 1);
    } else if z == 9 {
        crate::g2_multiples::lemma_multiple_9_value();
        lemma_g2_self_diff(83, 80, 84, 22);
        assert((9 + 34 - 9) % 34 == 0);
    } else if z == 10 {
        crate::g2_multiples::lemma_multiple_10_value();
        lemma_w_9_10();
        assert((9 + 34 - 10) % 34 == 33);
    } else if z == 11 {
        crate::g2_multiples::lemma_multiple_11_value();
        lemma_w_9_11();
        assert((9 + 34 - 11) % 34 == 32);
    } else if z == 12 {
        crate::g2_multiples::lemma_multiple_12_value();
        lemma_w_9_12();
        assert((9 + 34 - 12) % 34 == 31);
    } else if z == 13 {
        crate::g2_multiples::lemma_multiple_13_value();
        lemma_w_9_13();
        assert((9 + 34 - 13) % 34 == 30);
    } else if z == 14 {
        crate::g2_multiples::lemma_multiple_14_value();
        lemma_w_9_14();
        assert((9 + 34 - 14) % 34 == 29);
    } else if z == 15 {
        crate::g2_multiples::lemma_multiple_15_value();
        lemma_w_9_15();
        assert((9 + 34 - 15) % 34 == 28);
    } else if z == 16 {
        crate::g2_multiples::lemma_multiple_16_value();
        lemma_w_9_16();
        assert((9 + 34 - 16) % 34 == 27);
    }
}

#[verifier::spinoff_prover]
proof fn lemma_h_difference_row_10(z: nat)
    requires
        z < 17,
    ensures
        G2Point::sgenerator().smul(10).add_defined(G2Point::sgenerator().smul(z).sneg()),
        (G2Point::sgenerator().smul(10).sadd(G2Point::sgenerator().smul(z).sneg()) == G2Point::Infinity) <==> 10 == z,
        10 != z ==> sproject(G2Point::sgenerator().smul(10).sadd(G2Point::sgenerator().smul(z).sneg())) == col_point(((10 + 34 - z) % 34) as nat),
{
    crate::g2_multiples::lemma_multiple_10_value();
    if z == 0 {
        crate::g2_multiples::lemma_multiple_0_value();
        crate::pairing_values::lemma_distort_10();
        assert(col_point(10) == g1p(26, 56));
        assert((10 + 34 - 0) % 34 == 10);
    } else if z == 1 {
        crate::g2_multiples::lemma_multiple_1_value();
        lemma_w_10_1();
        assert((10 + 34 - 1) % 34 == 9);
    } else if z == 2 {
        crate::g2_multiples::lemma_multiple_2_value();
        lemma_w_10_2();
        assert((10 + 34 - 2) % 34 == 8);
    } else if z == 3 {
        crate::g2_multiples::lemma_multiple_3_value();
        lemma_w_10_3();
        assert((10 + 34 - 3) % 34 == 7);
    } else if z == 4 {
        crate::g2_multiples::lemma_multiple_4_value();
        lemma_w_10_4();
        assert((10 + 34 - 4) % 34 == 6);
    } else if z == 5 {
        crate::g2_multiples::lemma_multiple_5_value();
        lemma_w_10_5();
        assert((10 + 34 - 5) % 34 == 5);
    } else if z == 6 {
        crate::g2_multiples::lemma_multiple_6_value();
        lemma_w_10_6();
        assert((10 + 34 - 6) % 34 == 4);
    } else if z == 7 {
        crate::g2_multiples::lemma_multiple_7_value();
        lemma_w_10_7();
        assert((10 + 34 - 7) % 34 == 3);
    } else if z == 8 {
        crate::g2_multiples::lemma_multiple_8_value();
        lemma_w_10_8();
        assert((10 + 34 - 8) % 34 == 2);
    } else if z == 9 {
        crate::g2_multiples::lemma_multiple_9_value();
        lemma_w_10_9();
        assert((10 + 34 - 9) % 34 == 1);
    } else if z == 10 {
        crate::g2_multiples::lemma_multiple_10_value();
        lemma_g2_self_diff(65, 87, 47, 11);
        assert((10 + 34 - 10) % 34 == 0);
    } else if z == 11 {
        crate::g2_multiples::lemma_multiple_11_value();
        lemma_w_10_11();
        assert((10 + 34 - 11) % 34 == 33);
    } else if z == 12 {
        crate::g2_multiples::lemma_multiple_12_value();
        lemma_w_10_12();
        assert((10 + 34 - 12) % 34 == 32);
    } else if z == 13 {
        crate::g2_multiples::lemma_multiple_13_value();
        lemma_w_10_13();
        assert((10 + 34 - 13) % 34 == 31);
    } else if z == 14 {
        crate::g2_multiples::lemma_multiple_14_value();
        lemma_w_10_14();
        assert((10 + 34 - 14) % 34 == 30);
    } else if z == 15 {
        crate::g2_multiples::lemma_multiple_15_value();
        lemma_w_10_15();
        assert((10 + 34 - 15) % 34 == 29);
    } else if z == 16 {
        crate::g2_multiples::lemma_multiple_16_value();
        lemma_w_10_16();
        assert((10 + 34 - 16) % 34 == 28);
    }
}

#[verifier::spinoff_prover]
proof fn lemma_h_difference_row_11(z: nat)
    requires
        z < 17,
    ensures
        G2Point::sgenerator().smul(11).add_defined(G2Point::sgenerator().smul(z).sneg()),
        (G2Point::sgenerator().smul(11).sadd(G2Point::sgenerator().smul(z).sneg()) == G2Point::Infinity) <==> 11 == z,
        11 != z ==> sproject(G2Point::sgenerator().smul(11).sadd(G2Point::sgenerator().smul(z).sneg())) == col_point(((11 + 34 - z) % 34) as nat),
{
    crate::g2_multiples::lemma_multiple_11_value();
    if z == 0 {
        crate::g2_multiples::lemma_multiple_0_value();
        crate::pairing_values::lemma_distort_11();
        assert(col_point(11) == g1p(58, 36));
        assert((11 + 34 - 0) % 34 == 11);
    } else if z == 1 {
        crate::g2_multiples::lemma_multiple_1_value();
        lemma_w_11_1();
        assert((11 + 34 - 1) % 34 == 10);
    } else if z == 2 {
        crate::g2_multiples::lemma_multiple_2_value();
        lemma_w_11_2();
        assert((11 + 34 - 2) % 34 == 9);
    } else if z == 3 {
        crate::g2_multiples::lemma_multiple_3_value();
        lemma_w_11_3();
        assert((11 + 34 - 3) % 34 == 8);
    } else if z == 4 {
        crate::g2_multiples::lemma_multiple_4_value();
        lemma_w_11_4();
        assert((11 + 34 - 4) % 34 == 7);
    } else if z == 5 {
        crate::g2_multiples::lemma_multiple_5_value();
        lemma_w_11_5();
        assert((11 + 34 - 5) % 34 == 6);
    } else if z == 6 {
        crate::g2_multiples::lemma_multiple_6_value();
        lemma_w_11_6();
        assert((11 + 34 - 6) % 34 == 5);
    } else if z == 7 {
        crate::g2_multiples::lemma_multiple_7_value();
        lemma_w_11_7();
        assert((11 + 34 - 7) % 34 == 4);
    } else if z == 8 {
        crate::g2_multiples::lemma_multiple_8_value();
        lemma_w_11_8();
        assert((11 + 34 - 8) % 34 == 3);
    } else if z == 9 {
        crate::g2_multiples::lemma_multiple_9_value();
        lemma_w_11_9();
        assert((11 + 34 - 9) % 34 == 2);
    } else if z == 10 {
        crate::g2_multiples::lemma_multiple_10_value();
        lemma_w_11_10();
        assert((11 + 34 - 10) % 34 == 1);
    } else if z == 11 {
        crate::g2_multiples::lemma_multiple_11_value();
        lemma_g2_self_diff(61, 30, 84, 76);
        assert((11 + 34 - 11) % 34 == 0);
    } else if z == 12 {
        crate::g2_multiples::lemma_multiple_12_value();
        lemma_w_11_12();
        assert((11 + 34 - 12) % 34 == 33);
    } else if z == 13 {
        crate::g2_multiples::lemma_multiple_13_value();
        lemma_w_11_13();
        assert((11 + 34 - 13) % 34 == 32);
    } else if z == 14 {
        crate::g2_multiples::lemma_multiple_14_value();
        lemma_w_11_14();
        assert((11 + 34 - 14) % 34 == 31);
    } else if z == 15 {
        crate::g2_multiples::lemma_multiple_15_value();
        lemma_w_11_15();
        assert((11 + 34 - 15) % 34 == 30);
    } else if z == 16 {
        crate::g2_multiples::lemma_multiple_16_value();
        lemma_w_11_16();
        assert((11 + 34 - 16) % 34 == 29);
    }
}

#[verifier::spinoff_prover]
proof fn lemma_h_difference_row_12(z: nat)
    requires
        z < 17,
    ensures
        G2Point::sgenerator().smul(12).add_defined(G2Point::sgenerator().smul(z).sneg()),
        (G2Point::sgenerator().smul(12).sadd(G2Point::sgenerator().smul(z).sneg()) == G2Point::Infinity) <==> 12 == z,
        12 != z ==> sproject(G2Point::sgenerator().smul(12).sadd(G2Point::sgenerator().smul(z).sneg())) == col_point(((12 + 34 - z) % 34) as nat),
{
    crate::g2_multiples::lemma_multiple_12_value();
    if z == 0 {
        crate::g2_multiples::lemma_multiple_0_value();
        crate::pairing_values::lemma_distort_12();
        assert(col_point(12) == g1p(91, 66));
        assert((12 + 34 - 0) % 34 == 12);
    } else if z == 1 {
        crate::g2_multiples::lemma_multiple_1_value();
        lemma_w_12_1();
        assert((12 + 34 - 1) % 34 == 11);
    } else if z == 2 {
        crate::g2_multiples::lemma_multiple_2_value();
        lemma_w_12_2();
        assert((12 + 34 - 2) % 34 == 10);
    } else if z == 3 {
        crate::g2_multiples::lemma_multiple_3_value();
        lemma_w_12_3();
        assert((12 + 34 - 3) % 34 == 9);
    } else if z == 4 {
        crate::g2_multiples::lemma_multiple_4_value();
        lemma_w_12_4();
        assert((12 + 34 - 4) % 34 == 8);
    } else if z == 5 {
        crate::g2_multiples::lemma_multiple_5_value();
        lemma_w_12_5();
        assert((12 + 34 - 5) % 34 == 7);
    } else if z == 6 {
        crate::g2_multiples::lemma_multiple_6_value();
        lemma_w_12_6();
        assert((12 + 34 - 6) % 34 == 6);
    } else if z == 7 {
        crate::g2_multiples::lemma_multiple_7_value();
        lemma_w_12_7();
        assert((12 + 34 - 7) % 34 == 5);
    } else if z == 8 {
        crate::g2_multiples::lemma_multiple_8_value();
        lemma_w_12_8();
        assert((12 + 34 - 8) % 34 == 4);
    } else if z == 9 {
        crate::g2_multiples::lemma_multiple_9_value();
        lemma_w_12_9();
        assert((12 + 34 - 9) % 34 == 3);
    } else if z == 10 {
        crate::g2_multiples::lemma_multiple_10_value();
        lemma_w_12_10();
        assert((12 + 34 - 10) % 34 == 2);
    } else if z == 11 {
        crate::g2_multiples::lemma_multiple_11_value();
        lemma_w_12_11();
        assert((12 + 34 - 11) % 34 == 1);
    } else if z == 12 {
        crate::g2_multiples::lemma_multiple_12_value();
        lemma_g2_self_diff(29, 87, 70, 40);
        assert((12 + 34 - 12) % 34 == 0);
    } else if z == 13 {
        crate::g2_multiples::lemma_multiple_13_value();
        lemma_w_12_13();
        assert((12 + 34 - 13) % 34 == 33);
    } else if z == 14 {
        crate::g2_multiples::lemma_multiple_14_value();
        lemma_w_12_14();
        assert((12 + 34 - 14) % 34 == 32);
    } else if z == 15 {
        crate::g2_multiples::lemma_multiple_15_value();
        lemma_w_12_15();
        assert((12 + 34 - 15) % 34 == 31);
    } else if z == 16 {
        crate::g2_multiples::lemma_multiple_16_value();
        lemma_w_12_16();
        assert((12 + 34 - 16) % 34 == 30);
    }
}

#[verifier::spinoff_prover]
proof fn lemma_h_difference_row_13(z: nat)
    requires
        z < 17,
    ensures
        G2Point::sgenerator().smul(13).add_defined(G2Point::sgenerator().smul(z).sneg()),
        (G2Point::sgenerator().smul(13).sadd(G2Point::sgenerator().smul(z).sneg()) == G2Point::Infinity) <==> 13 == z,
        13 != z ==> sproject(G2Point::sgenerator().smul(13).sadd(G2Point::sgenerator().smul(z).sneg())) == col_point(((13 + 34 - z) % 34) as nat),
{
    crate::g2_multiples::lemma_multiple_13_value();
    if z == 0 {
        crate::g2_multiples::lemma_multiple_0_value();
        crate::pairing_values::lemma_distort_13();
        assert(col_point(13) == g1p(60, 60));
        assert((13 + 34 - 0) % 34 == 13);
    } else if z == 1 {
        crate::g2_multiples::lemma_multiple_1_value();
        lemma_w_13_1();
        assert((13 + 34 - 1) % 34 == 12);
    } else if z == 2 {
        crate::g2_multiples::lemma_multiple_2_value();
        lemma_w_13_2();
        assert((13 + 34 - 2) % 34 == 11);
    } else if z == 3 {
        crate::g2_multiples::lemma_multiple_3_value();
        lemma_w_13_3();
        assert((13 + 34 - 3) % 34 == 10);
    } else if z == 4 {
        crate::g2_multiples::lemma_multiple_4_value();
        lemma_w_13_4();
        assert((13 + 34 - 4) % 34 == 9);
    } else if z == 5 {
        crate::g2_multiples::lemma_multiple_5_value();
        lemma_w_13_5();
        assert((13 + 34 - 5) % 34 == 8);
    } else if z == 6 {
        crate::g2_multiples::lemma_multiple_6_value();
        lemma_w_13_6();
        assert((13 + 34 - 6) % 34 == 7);
    } else if z == 7 {
        crate::g2_multiples::lemma_multiple_7_value();
        lemma_w_13_7();
        assert((13 + 34 - 7) % 34 == 6);
    } else if z == 8 {
        crate::g2_multiples::lemma_multiple_8_value();
        lemma_w_13_8();
        assert((13 + 34 - 8) % 34 == 5);
    } else if z == 9 {
        crate::g2_multiples::lemma_multiple_9_value();
        lemma_w_13_9();
        assert((13 + 34 - 9) % 34 == 4);
    } else if z == 10 {
        crate::g2_multiples::lemma_multiple_10_value();
        lemma_w_13_10();
        assert((13 + 34 - 10) % 34 == 3);
    } else if z == 11 {
        crate::g2_multiples::lemma_multiple_11_value();
        lemma_w_13_11();
        assert((13 + 34 - 11) % 34 == 2);
    } else if z == 12 {
        crate::g2_multiples::lemma_multiple_12_value();
        lemma_w_13_12();
        assert((13 + 34 - 12) % 34 == 1);
    } else if z == 13 {
        crate::g2_multiples::lemma_multiple_13_value();
        lemma_g2_self_diff(4, 46, 3, 36);
        assert((13 + 34 - 13) % 34 == 0);
    } else if z == 14 {
        crate::g2_multiples::lemma_multiple_14_value();
        lemma_w_13_14();
        assert((13 + 34 - 14) % 34 == 33);
    } else if z == 15 {
        crate::g2_multiples::lemma_multiple_15_value();
        lemma_w_13_15();
        assert((13 + 34 - 15) % 34 == 32);
    } else if z == 16 {
        crate::g2_multiples::lemma_multiple_16_value();
        lemma_w_13_16();
        assert((13 + 34 - 16) % 34 == 31);
    }
}

#[verifier::spinoff_prover]
proof fn lemma_h_difference_row_14(z: nat)
    requires
        z < 17,
    ensures
        G2Point::sgenerator().smul(14).add_defined(G2Point::sgenerator().smul(z).sneg()),
        (G2Point::sgenerator().smul(14).sadd(G2Point::sgenerator().smul(z).sneg()) == G2Point::Infinity) <==> 14 == z,
        14 != z ==> sproject(G2Point::sgenerator().smul(14).sadd(G2Point::sgenerator().smul(z).sneg())) == col_point(((14 + 34 - z) % 34) as nat),
{
    crate::g2_multiples::lemma_multiple_14_value();
    if z == 0 {
        crate::g2_multiples::lemma_multiple_0_value();
        crate::pairing_values::lemma_distort_14();
        assert(col_point(14) == g1p(32, 42));
        assert((14 + 34 - 0) % 34 == 14);
    } else if z == 1 {
        crate::g2_multiples::lemma_multiple_1_value();
        lemma_w_14_1();
        assert((14 + 34 - 1) % 34 == 13);
    } else if z == 2 {
        crate::g2_multiples::lemma_multiple_2_value();
        lemma_w_14_2();
        assert((14 + 34 - 2) % 34 == 12);
    } else if z == 3 {
        crate::g2_multiples::lemma_multiple_3_value();
        lemma_w_14_3();
        assert((14 + 34 - 3) % 34 == 11);
    } else if z == 4 {
        crate::g2_multiples::lemma_multiple_4_value();
        lemma_w_14_4();
        assert((14 + 34 - 4) % 34 == 10);
    } else if z == 5 {
        crate::g2_multiples::lemma_multiple_5_value();
        lemma_w_14_5();
        assert((14 + 34 - 5) % 34 == 9);
    } else if z == 6 {
        crate::g2_multiples::lemma_multiple_6_value();
        lemma_w_14_6();
        assert((14 + 34 - 6) % 34 == 8);
    } else if z == 7 {
        crate::g2_multiples::lemma_multiple_7_value();
        lemma_w_14_7();
        assert((14 + 34 - 7) % 34 == 7);
    } else if z == 8 {
        crate::g2_multiples::lemma_multiple_8_value();
        lemma_w_14_8();
        assert((14 + 34 - 8) % 34 == 6);
    } else if z == 9 {
        crate::g2_multiples::lemma_multiple_9_value();
        lemma_w_14_9();
        assert((14 + 34 - 9) % 34 == 5);
    } else if z == 10 {
        crate::g2_multiples::lemma_multiple_10_value();
        lemma_w_14_10();
        assert((14 + 34 - 10) % 34 == 4);
    } else if z == 11 {
        crate::g2_multiples::lemma_multiple_11_value();
        lemma_w_14_11();
        assert((14 + 34 - 11) % 34 == 3);
    } else if z == 12 {
        crate::g2_multiples::lemma_multiple_12_value();
        lemma_w_14_12();
        assert((14 + 34 - 12) % 34 == 2);
    } else if z == 13 {
        crate::g2_multiples::lemma_multiple_13_value();
        lemma_w_14_13();
        assert((14 + 34 - 13) % 34 == 1);
    } else if z == 14 {
        crate::g2_multiples::lemma_multiple_14_value();
        lemma_g2_self_diff(42, 100, 84, 16);
        assert((14 + 34 - 14) % 34 == 0);
    } else if z == 15 {
        crate::g2_multiples::lemma_multiple_15_value();
        lemma_w_14_15();
        assert((14 + 34 - 15) % 34 == 33);
    } else if z == 16 {
        crate::g2_multiples::lemma_multiple_16_value();
        lemma_w_14_16();
        assert((14 + 34 - 16) % 34 == 32);
    }
}

#[verifier::spinoff_prover]
proof fn lemma_h_difference_row_15(z: nat)
    requires
        z < 17,
    ensures
        G2Point::sgenerator().smul(15).add_defined(G2Point::sgenerator().smul(z).sneg()),
        (G2Point::sgenerator().smul(15).sadd(G2Point::sgenerator().smul(z).sneg()) == G2Point::Infinity) <==> 15 == z,
        15 != z ==> sproject(G2Point::sgenerator().smul(15).sadd(G2Point::sgenerator().smul(z).sneg())) == col_point(((15 + 34 - z) % 34) as nat),
{
    crate::g2_multiples::lemma_multiple_15_value();
    if z == 0 {
        crate::g2_multiples::lemma_multiple_0_value();
        crate::pairing_values::lemma_distort_15();
        assert(col_point(15) == g1p(9, 5));
        assert((15 + 34 - 0) % 34 == 15);
    } else if z == 1 {
        crate::g2_multiples::lemma_multiple_1_value();
        lemma_w_15_1();
        assert((15 + 34 - 1) % 34 == 14);
    } else if z == 2 {
        crate::g2_multiples::lemma_multiple_2_value();
        lemma_w_15_2();
        assert((15 + 34 - 2) % 34 == 13);
    } else if z == 3 {
        crate::g2_multiples::lemma_multiple_3_value();
        lemma_w_15_3();
        assert((15 + 34 - 3) % 34 == 12);
    } else if z == 4 {
        crate::g2_multiples::lemma_multiple_4_value();
        lemma_w_15_4();
        assert((15 + 34 - 4) % 34 == 11);
    } else if z == 5 {
        crate::g2_multiples::lemma_multiple_5_value();
        lemma_w_15_5();
        assert((15 + 34 - 5) % 34 == 10);
    } else if z == 6 {
        crate::g2_multiples::lemma_multiple_6_value();
        lemma_w_15_6();
        assert((15 + 34 - 6) % 34 == 9);
    } else if z == 7 {
        crate::g2_multiples::lemma_multiple_7_value();
        lemma_w_15_7();
        assert((15 + 34 - 7) % 34 == 8);
    } else if z == 8 {
        crate::g2_multiples::lemma_multiple_8_value();
        lemma_w_15_8();
        assert((15 + 34 - 8) % 34 == 7);
    } else if z == 9 {
        crate::g2_multiples::lemma_multiple_9_value();
        lemma_w_15_9();
        assert((15 + 34 - 9) % 34 == 6);
    } else if z == 10 {
        crate::g2_multiples::lemma_multiple_10_value();
        lemma_w_15_10();
        assert((15 + 34 - 10) % 34 == 5);
    } else if z == 11 {
        crate::g2_multiples::lemma_multiple_11_value();
        lemma_w_15_11();
        assert((15 + 34 - 11) % 34 == 4);
    } else if z == 12 {
        crate::g2_multiples::lemma_multiple_12_value();
        lemma_w_15_12();
        assert((15 + 34 - 12) % 34 == 3);
    } else if z == 13 {
        crate::g2_multiples::lemma_multiple_13_value();
        lemma_w_15_13();
        assert((15 + 34 - 13) % 34 == 2);
    } else if z == 14 {
        crate::g2_multiples::lemma_multiple_14_value();
        lemma_w_15_14();
        assert((15 + 34 - 14) % 34 == 1);
    } else if z == 15 {
        crate::g2_multiples::lemma_multiple_15_value();
        lemma_g2_self_diff(71, 14, 32, 68);
        assert((15 + 34 - 15) % 34 == 0);
    } else if z == 16 {
        crate::g2_multiples::lemma_multiple_16_value();
        lemma_w_15_16();
        assert((15 + 34 - 16) % 34 == 33);
    }
}

#[verifier::spinoff_prover]
proof fn lemma_h_difference_row_16(z: nat)
    requires
        z < 17,
    ensures
        G2Point::sgenerator().smul(16).add_defined(G2Point::sgenerator().smul(z).sneg()),
        (G2Point::sgenerator().smul(16).sadd(G2Point::sgenerator().smul(z).sneg()) == G2Point::Infinity) <==> 16 == z,
        16 != z ==> sproject(G2Point::sgenerator().smul(16).sadd(G2Point::sgenerator().smul(z).sneg())) == col_point(((16 + 34 - z) % 34) as nat),
{
    crate::g2_multiples::lemma_multiple_16_value();
    if z == 0 {
        crate::g2_multiples::lemma_multiple_0_value();
        crate::pairing_values::lemma_distort_16();
        assert(col_point(16) == g1p(68, 74));
        assert((16 + 34 - 0) % 34 == 16);
    } else if z == 1 {
        crate::g2_multiples::lemma_multiple_1_value();
        lemma_w_16_1();
        assert((16 + 34 - 1) % 34 == 15);
    } else if z == 2 {
        crate::g2_multiples::lemma_multiple_2_value();
        lemma_w_16_2();
        assert((16 + 34 - 2) % 34 == 14);
    } else if z == 3 {
        crate::g2_multiples::lemma_multiple_3_value();
        lemma_w_16_3();
        assert((16 + 34 - 3) % 34 == 13);
    } else if z == 4 {
        crate::g2_multiples::lemma_multiple_4_value();
        lemma_w_16_4();
        assert((16 + 34 - 4) % 34 == 12);
    } else if z == 5 {
        crate::g2_multiples::lemma_multiple_5_value();
        lemma_w_16_5();
        assert((16 + 34 - 5) % 34 == 11);
    } else if z == 6 {
        crate::g2_multiples::lemma_multiple_6_value();
        lemma_w_16_6();
        assert((16 + 34 - 6) % 34 == 10);
    } else if z == 7 {
        crate::g2_multiples::lemma_multiple_7_value();
        lemma_w_16_7();
        assert((16 + 34 - 7) % 34 == 9);
    } else if z == 8 {
        crate::g2_multiples::lemma_multiple_8_value();
        lemma_w_16_8();
        assert((16 + 34 - 8) % 34 == 8);
    } else if z == 9 {
        crate::g2_multiples::lemma_multiple_9_value();
        lemma_w_16_9();
        assert((16 + 34 - 9) % 34 == 7);
    } else if z == 10 {
        crate::g2_multiples::lemma_multiple_10_value();
        lemma_w_16_10();
        assert((16 + 34 - 10) % 34 == 6);
    } else if z == 11 {
        crate::g2_multiples::lemma_multiple_11_value();
        lemma_w_16_11();
        assert((16 + 34 - 11) % 34 == 5);
    } else if z == 12 {
        crate::g2_multiples::lemma_multiple_12_value();
        lemma_w_16_12();
        assert((16 + 34 - 12) % 34 == 4);
    } else if z == 13 {
        crate::g2_multiples::lemma_multiple_13_value();
        lemma_w_16_13();
        assert((16 + 34 - 13) % 34 == 3);
    } else if z == 14 {
        crate::g2_multiples::lemma_multiple_14_value();
        lemma_w_16_14();
        assert((16 + 34 - 14) % 34 == 2);
    } else if z == 15 {
        crate::g2_multiples::lemma_multiple_15_value();
        lemma_w_16_15();
        assert((16 + 34 - 15) % 34 == 1);
    } else if z == 16 {
        crate::g2_multiples::lemma_multiple_16_value();
        lemma_g2_self_diff(93, 48, 94, 99);
        assert((16 + 34 - 16) % 34 == 0);
    }
}

/// `t H - z H` for scalars below 17: defined; the point at infinity exactly when `t == z`,
/// and otherwise a point whose image under `i -> 10` is `(t - z) P`.
pub(crate) proof fn lemma_h_difference(t: nat, z: nat)
    requires
        t < 17,
        z < 17,
    ensures
        G2Point::sgenerator().smul(t).add_defined(G2Point::sgenerator().smul(z).sneg()),
        (G2Point::sgenerator().smul(t).sadd(G2Point::sgenerator().smul(z).sneg()) == G2Point::Infinity)
            <==> t == z,
        t != z ==> sproject(G2Point::sgenerator().smul(t).sadd(G2Point::sgenerator().smul(z).sneg()))
            == col_point(((t + 34 - z) % 34) as nat),
{
    if t == 0 {
        lemma_h_difference_row_0(z);
    } else if t == 1 {
        lemma_h_difference_row_1(z);
    } else if t == 2 {
        lemma_h_difference_row_2(z);
    } else if t == 3 {
        lemma_h_difference_row_3(z);
    } else if t == 4 {
        lemma_h_difference_row_4(z);
    } else if t == 5 {
        lemma_h_difference_row_5(z);
    } else if t == 6 {
        lemma_h_difference_row_6(z);
    } else if t == 7 {
        lemma_h_difference_row_7(z);
    } else if t == 8 {
        lemma_h_difference_row_8(z);
    } else if t == 9 {
        lemma_h_difference_row_9(z);
    } else if t == 10 {
        lemma_h_difference_row_10(z);
    } else if t == 11 {
        lemma_h_difference_row_11(z);
    } else if t == 12 {
        lemma_h_difference_row_12(z);
    } else if t == 13 {
        lemma_h_difference_row_13(z);
    } else if t == 14 {
        lemma_h_difference_row_14(z);
    } else if t == 15 {
        lemma_h_difference_row_15(z);
    } else if t == 16 {
        lemma_h_difference_row_16(z);
    }
}
/// The exponents of the two sides of the verification equation agree: with
/// `F == Q (t - z) + V (mod 17)`, `F - V == Q c (mod 17)` for `c == t - z (mod 34)`.
proof fn lemma_kzg_exponents(f: nat, qv: nat, v: nat, t: nat, z: nat)
    requires
        f < 17,
        qv < 17,
        v < 17,
        t < 17,
        z < 17,
        f as int == ((qv * ((t - z) % 17)) % 17 + v) % 17,
    ensures
        (f + (17 - v) % 17) % 17 == (qv * ((t + 34 - z) % 34)) % 17,
        (qv == 0 || t == z) ==> (f + (17 - v) % 17) % 17 == 0,
{
    let d = t - z;
    let c = (t + 34 - z) % 34;
    lemma_mod_mod((t + 34 - z) as int, 17, 2);
    lemma_mod_multiples_vanish(2, d, 17);
    assert(c % 17 == d % 17);
    lemma_mul_mod_noop_right(qv as int, c as int, 17);
    lemma_mul_mod_noop_right(qv as int, d, 17);
    let p = (qv * (d % 17)) % 17;
    assert((qv * c) % 17 == p);
    lemma_mod_bound(qv * (d % 17), 17);
    lemma_add_mod_noop(p + v, (17 - v) as int, 17);
    lemma_mod_twice(p + v, 17);
    if v > 0 {
        lemma_small_mod((17 - v) as nat, 17);
    }
    lemma_small_mod(0, 17);
    lemma_mod_add_multiples_vanish(p, 17);
    lemma_small_mod(p as nat, 17);
    if v == 0 {
        lemma_mod_self_0(17);
    }
    if qv == 0 {
        assert(qv * (d % 17) == 0);
    }
    if t == z {
        assert(d % 17 == 0);
        assert(qv * 0 == 0);
    }
}

/// The scalars of an honest opening: `f(tau) == q(tau) (tau - z) + f(z)` as residues.
proof fn lemma_kzg_scalars(f: Seq<ScalarField>, z: ScalarField, tau: ScalarField)
    requires
        tau.canon(),
        z.canon(),
    ensures
        ({
            let q = sdivide(f, strim(slinear_divisor(z))).0;
            let (fv, vv, qv) = (seval(f, tau).val(), seval(f, z).val(), seval(q, tau).val());
            &&& fv < 17 && vv < 17 && qv < 17 && tau.val() < 17 && z.val() < 17
            &&& fv as int == ((qv * ((tau.val() - z.val()) % 17)) % 17 + vv) % 17
        }),
{
    broadcast use ScalarField::group_scalar_field;

    let q = sdivide(f, strim(slinear_divisor(z))).0;
    crate::kzg::lemma_open_quotient(f, z, tau);
    crate::poly_laws::lemma_seval_canon(f, tau);
    crate::poly_laws::lemma_seval_canon(f, z);
    crate::poly_laws::lemma_seval_canon(q, tau);
}

/// The G1 side of an honest opening: `C - f(z) G == (f(tau) - f(z)) G`, and the proof is
/// `q(tau) G`.
proof fn lemma_kzg_g1(srs: SRS, tau: ScalarField, f: Seq<ScalarField>, z: ScalarField)
    requires
        g1_powers_of(srs.g1_powers@, tau),
        tau.canon(),
        z.canon(),
        f.len() <= srs.g1_powers@.len(),
    ensures
        ({
            let powers = srs.g1_powers@;
            let q = sdivide(f, strim(slinear_divisor(z))).0;
            let (fv, vv) = (seval(f, tau).val(), seval(f, z).val());
            &&& scommit(powers, f).ssub(gm(vv)) == gm(((fv + (17 - vv) % 17) % 17) as nat)
            &&& sopen_proof(powers, f, z) == gm(seval(q, tau).val())
        }),
{
    let powers = srs.g1_powers@;
    let q = sdivide(f, strim(slinear_divisor(z))).0;
    crate::poly_laws::lemma_linear_trimmed(z);
    assert(strim(slinear_divisor(z)).len() == 2);
    lemma_sdivide_len(f, strim(slinear_divisor(z)));
    lemma_commit_value(powers, f, tau);
    lemma_commit_value(powers, q, tau);
    lemma_kzg_scalars(f, z, tau);
    let vv = seval(f, z).val();
    let fv = seval(f, tau).val();
    lemma_g1_neg(vv);
    lemma_g1_sum(fv, ((17 - vv) % 17) as nat);
}

/// One honest opening over the reference string of `setup`: every pairing that `verify`
/// computes is defined, and the verification equation holds.
#[verifier::spinoff_prover]
#[verifier::rlimit(100)]
proof fn lemma_kzg_opening(srs: SRS, tau: ScalarField, f: Seq<ScalarField>, z: ScalarField)
    requires
        g1_powers_of(srs.g1_powers@, tau),
        srs.g2 == G2Point::sgenerator(),
        srs.g2_tau == G2Point::sgenerator().smul(tau.val()),
        tau.canon(),
        z.canon(),
        f.len() <= srs.g1_powers@.len(),
    ensures
        ({
            let powers = srs.g1_powers@;
            let c = scommit(powers, f);
            let v = seval(f, z);
            let pi = sopen_proof(powers, f, z);
            sverify_defined(srs, c, z, v, pi) && sverify_sides(srs, c, z, v, pi).0 == sverify_sides(
                srs,
                c,
                z,
                v,
                pi,
            ).1
        }),
{
    let powers = srs.g1_powers@;
    let h = G2Point::sgenerator();
    let q = sdivide(f, strim(slinear_divisor(z))).0;
    lemma_kzg_scalars(f, z, tau);
    lemma_kzg_g1(srs, tau, f, z);
    let fv = seval(f, tau).val();
    let vv = seval(f, z).val();
    let qv = seval(q, tau).val();
    let t = tau.val();
    let zv = z.val();
    lemma_kzg_exponents(fv, qv, vv, t, zv);
    let l = ((fv + (17 - vv) % 17) % 17) as nat;
    let left = scommit(powers, f).ssub(gm(vv));
    assert(left == gm(l));
    let pi = sopen_proof(powers, f, z);
    assert(pi == gm(qv));
    crate::g2_multiples::lemma_g2_multiples_defined();
    assert(h.mul_defined(zv));
    lemma_h_difference(t, zv);
    let w = h.smul(t).sadd(h.smul(zv).sneg());
    assert(srs.g2_tau.ssub(srs.g2.smul(zv)) == w);
    lemma_e_gen();
    lemma_powers();
    assert(GT::sone() == GT(crate::pairing::gt_of(1, 0)));
    crate::g2_multiples::lemma_multiple_1_value();
    lemma_h_multiple(1);
    assert(h.smul(1) == h);
    let lhs = spairing(left, h);
    let rhs = spairing(pi, w);
    if l == 0 {
        lemma_g1_multiple_0();
        assert(lhs == GT::sone());
    } else {
        lemma_pairing_column(l, 1);
        assert(lhs == e_gen().spow(l % 17));
    }
    if qv == 0 || t == zv {
        lemma_g1_multiple_0();
        assert(rhs == GT::sone());
    } else {
        let c = ((t + 34 - zv) % 34) as nat;
        lemma_pairing_column(qv, c);
        assert(rhs == e_gen().spow((qv * c) % 17));
    }
    assert(lhs == rhs);
}

/// The completeness of KZG: over the reference string of `setup` with any trapdoor `tau`,
/// every honest opening of a polynomial that fits the string verifies, and every pairing
/// that `verify` computes on it is defined.
pub proof fn lemma_kzg_complete(srs: SRS, max_degree: nat, tau: ScalarField)
    requires
        is_setup_srs(srs, max_degree, tau),
    ensures
        kzg_complete(srs),
{
    assert(g1_powers_of(srs.g1_powers@, tau));
    assert forall|f: Seq<ScalarField>, z: ScalarField|
        f.len() <= srs.g1_powers@.len() && z.canon() implies #[trigger] crate::pcs_gadgets::skzg_ok(
            srs,
            scommit(srs.g1_powers@, f),
            z,
            seval(f, z),
            sopen_proof(srs.g1_powers@, f, z),
        ) && sverify_defined(
            srs,
            scommit(srs.g1_powers@, f),
            z,
            seval(f, z),
            sopen_proof(srs.g1_powers@, f, z),
        ) by {
        lemma_kzg_opening(srs, tau, f, z);
    }
}

/// The exponent of a power of `e(G, H)` below 17, read off its coordinates.
spec fn gt_log(g: GT) -> nat {
    let (a, b) = (g.0.c0.val(), g.0.c1.val());
    if a == 1 && b == 0 {
        0
    } else if a == 96 && b == 29 {
        1
    } else if a == 93 && b == 81 {
        2
    } else if a == 14 && b == 44 {
        3
    } else if a == 68 && b == 21 {
        4
    } else if a == 61 && b == 46 {
        5
    } else if a == 78 && b == 3 {
        6
    } else if a == 28 && b == 39 {
        7
    } else if a == 42 && b == 92 {
        8
    } else if a == 51 && b == 9 {
        9
    } else if a == 90 && b == 62 {
        10
    } else if a == 75 && b == 98 {
        11
    } else if a == 15 && b == 55 {
        12
    } else if a == 47 && b == 80 {
        13
    } else if a == 71 && b == 57 {
        14
    } else if a == 12 && b == 20 {
        15
    } else if a == 67 && b == 72 {
        16
    } else {
        17
    }
}

/// The powers `e(G, H)^k` for `k < 17` are pairwise distinct: `gt_log` recovers `k`.
proof fn lemma_gt_log(k: nat)
    requires
        k < 17,
    ensures
        gt_log(e_gen().spow(k)) == k,
{
    broadcast use TinyFp::lemma_from_int_val;

    lemma_powers();
    if k == 0 {
        assert(e_gen().spow(0) == GT(crate::pairing::gt_of(1, 0)));
    } else if k == 1 {
        assert(e_gen().spow(1) == GT(crate::pairing::gt_of(96, 29)));
    } else if k == 2 {
        assert(e_gen().spow(2) == GT(crate::pairing::gt_of(93, 81)));
    } else if k == 3 {
        assert(e_gen().spow(3) == GT(crate::pairing::gt_of(14, 44)));
    } else if k == 4 {
        assert(e_gen().spow(4) == GT(crate::pairing::gt_of(68, 21)));
    } else if k == 5 {
        assert(e_gen().spow(5) == GT(crate::pairing::gt_of(61, 46)));
    } else if k == 6 {
        assert(e_gen().spow(6) == GT(crate::pairing::gt_of(78, 3)));
    } else if k == 7 {
        assert(e_gen().spow(7) == GT(crate::pairing::gt_of(28, 39)));
    } else if k == 8 {
        assert(e_gen().spow(8) == GT(crate::pairing::gt_of(42, 92)));
    } else if k == 9 {
        assert(e_gen().spow(9) == GT(crate::pairing::gt_of(51, 9)));
    } else if k == 10 {
        assert(e_gen().spow(10) == GT(crate::pairing::gt_of(90, 62)));
    } else if k == 11 {
        assert(e_gen().spow(11) == GT(crate::pairing::gt_of(75, 98)));
    } else if k == 12 {
        assert(e_gen().spow(12) == GT(crate::pairing::gt_of(15, 55)));
    } else if k == 13 {
        assert(e_gen().spow(13) == GT(crate::pairing::gt_of(47, 80)));
    } else if k == 14 {
        assert(e_gen().spow(14) == GT(crate::pairing::gt_of(71, 57)));
    } else if k == 15 {
        assert(e_gen().spow(15) == GT(crate::pairing::gt_of(12, 20)));
    } else if k == 16 {
        assert(e_gen().spow(16) == GT(crate::pairing::gt_of(67, 72)));
    }
}

/// The pairing of `l G` with `H`, for `l < 17`: defined, and `e(G, H)^l`.
proof fn lemma_pairing_with_h(l: nat)
    requires
        l < 17,
    ensures
        pairing_defined(gm(l), G2Point::sgenerator()),
        spairing(gm(l), G2Point::sgenerator()) == e_gen().spow(l),
{
    lemma_powers();
    assert(GT::sone() == GT(crate::pairing::gt_of(1, 0)));
    crate::g2_multiples::lemma_multiple_1_value();
    lemma_h_multiple(1);
    assert(G2Point::sgenerator().smul(1) == G2Point::sgenerator());
    if l == 0 {
        lemma_g1_multiple_0();
    } else {
        lemma_pairing_column(l, 1);
        assert(l % 17 == l);
    }
}

/// The G1 side of the KZG check for a value `v`: `C - v G == (f(tau) - v) G`.
proof fn lemma_kzg_left_at(srs: SRS, tau: ScalarField, f: Seq<ScalarField>, v: ScalarField)
    requires
        g1_powers_of(srs.g1_powers@, tau),
        tau.canon(),
        v.canon(),
        f.len() <= srs.g1_powers@.len(),
    ensures
        seval(f, tau).val() < 17,
        v.val() < 17,
        scommit(srs.g1_powers@, f).ssub(gm(v.val())) == gm(
            ((seval(f, tau).val() + (17 - v.val()) % 17) % 17) as nat,
        ),
{
    broadcast use ScalarField::group_scalar_field;

    lemma_commit_value(srs.g1_powers@, f, tau);
    crate::poly_laws::lemma_seval_canon(f, tau);
    lemma_g1_neg(v.val());
    lemma_g1_sum(seval(f, tau).val(), ((17 - v.val()) % 17) as nat);
}

/// Distinct canonical values give distinct left exponents `f(tau) - v` modulo 17.
proof fn lemma_exponents_differ(fv: nat, vv: nat, vw: nat)
    requires
        fv < 17,
        vv < 17,
        vw < 17,
        vv != vw,
    ensures
        (fv + (17 - vv) % 17) % 17 != (fv + (17 - vw) % 17) % 17,
{
}

/// The KZG check refuses a wrong value: over the reference string of `setup` with any
/// trapdoor `tau`, for a polynomial that fits the string, a canonical point `z` and a
/// canonical value `v != f(z)`, every pairing that `verify` computes on the commitment, `v`
/// and the honest opening proof is defined, and the pairing check fails.
#[verifier::spinoff_prover]
#[verifier::rlimit(60)]
pub proof fn lemma_kzg_rejects_wrong_value(
    srs: SRS,
    max_degree: nat,
    tau: ScalarField,
    f: Seq<ScalarField>,
    z: ScalarField,
    v: ScalarField,
)
    requires
        is_setup_srs(srs, max_degree, tau),
        f.len() <= srs.g1_powers@.len(),
        z.canon(),
        v.canon(),
        v != seval(f, z),
    ensures
        sverify_defined(srs, scommit(srs.g1_powers@, f), z, v, sopen_proof(srs.g1_powers@, f, z)),
        !crate::pcs_gadgets::skzg_ok(srs, scommit(srs.g1_powers@, f), z, v, sopen_proof(srs.g1_powers@, f, z)),
{
    let powers = srs.g1_powers@;
    assert(g1_powers_of(powers, tau));
    let u = seval(f, z);
    crate::poly_laws::lemma_seval_canon(f, z);
    lemma_kzg_opening(srs, tau, f, z);
    lemma_kzg_left_at(srs, tau, f, u);
    lemma_kzg_left_at(srs, tau, f, v);
    let fv = seval(f, tau).val();
    assert(v.val() != u.val()) by {
        if v.val() == u.val() {
            ScalarField::lemma_val_eq(v, u);
        }
    }
    lemma_exponents_differ(fv, u.val(), v.val());
    let l = ((fv + (17 - u.val()) % 17) % 17) as nat;
    let lw = ((fv + (17 - v.val()) % 17) % 17) as nat;
    lemma_pairing_with_h(l);
    lemma_pairing_with_h(lw);
    lemma_gt_log(l);
    lemma_gt_log(lw);
}

} // verus!
