//! Laws of polynomial arithmetic, stated over evaluation: the sum, difference and long
//! division of `DensePolynomial`s agree with the field operations on their values.
//!
//! The proofs lift evaluation to the integers: `hsum(f, s, n, x)` is
//! `f(s) + f(s + 1) * x + ... + f(s + n - 1) * x^(n - 1)` computed exactly, and the value of
//! a polynomial at `x` is `hsum` of its coefficients' residues, reduced modulo 17.
use crate::field::{ScalarField, R};
use crate::arith::{lemma_no_zero_divisors, lemma_prime_17};
use crate::pcs_gadgets::ssubgroup_vanishing;
use crate::poly::{
    coeff, fpow, is_trimmed, lemma_sdivide_len, lemma_strim, sadd_coeffs, sconv, sdiv_loop, sdivide, seval,
    sprod, sshift, ssub_coeffs, ssub_scaled, strim,
};
use vstd::arithmetic::div_mod::*;
use vstd::arithmetic::mul::*;
use vstd::arithmetic::power::*;
use vstd::prelude::*;

verus! {

broadcast use ScalarField::group_scalar_field;

/// `sum_{i < n} f(s + i) * x^i`, by Horner's rule, over the integers.
pub open spec fn hsum(f: spec_fn(int) -> int, s: int, n: nat, x: int) -> int
    decreases n,
{
    if n == 0 {
        0
    } else {
        f(s) + x * hsum(f, s + 1, (n - 1) as nat, x)
    }
}

/// The residues of the coefficients of `p`, zero beyond its end.
pub open spec fn icoeffs(p: Seq<ScalarField>) -> spec_fn(int) -> int {
    |i: int| coeff(p, i).val() as int
}

/// `hsum` reads `f` only on `[s, s + n)`.
pub proof fn lemma_hsum_ext(f: spec_fn(int) -> int, g: spec_fn(int) -> int, s: int, t: int, n: nat, x: int)
    requires
        forall|i: int| s <= i < s + n ==> #[trigger] f(i) == g(i - s + t),
    ensures
        hsum(f, s, n, x) == hsum(g, t, n, x),
    decreases n,
{
    if n > 0 {
        assert(f(s) == g(s - s + t));
        assert forall|i: int| s + 1 <= i < s + 1 + (n - 1) implies #[trigger] f(i) == g(i - (s + 1) + (t + 1)) by {
            assert(f(i) == g(i - s + t));
        }
        lemma_hsum_ext(f, g, s + 1, t + 1, (n - 1) as nat, x);
    }
}

/// Terms that vanish on `[s + n, s + m)` add nothing.
pub proof fn lemma_hsum_zeros(f: spec_fn(int) -> int, s: int, n: nat, m: nat, x: int)
    requires
        n <= m,
        forall|i: int| s + n <= i < s + m ==> #[trigger] f(i) == 0,
    ensures
        hsum(f, s, m, x) == hsum(f, s, n, x),
    decreases n,
{
    if n == 0 {
        lemma_hsum_all_zero(f, s, m, x);
    } else {
        lemma_hsum_zeros(f, s + 1, (n - 1) as nat, (m - 1) as nat, x);
    }
}

proof fn lemma_hsum_all_zero(f: spec_fn(int) -> int, s: int, m: nat, x: int)
    requires
        forall|i: int| s <= i < s + m ==> #[trigger] f(i) == 0,
    ensures
        hsum(f, s, m, x) == 0,
    decreases m,
{
    if m > 0 {
        lemma_hsum_all_zero(f, s + 1, (m - 1) as nat, x);
    }
}

/// Terms congruent modulo 17 give sums congruent modulo 17.
pub proof fn lemma_hsum_congruent(f: spec_fn(int) -> int, g: spec_fn(int) -> int, s: int, n: nat, x: int)
    requires
        forall|i: int| s <= i < s + n ==> #[trigger] (f(i) - g(i)) % (R as int) == 0,
    ensures
        (hsum(f, s, n, x) - hsum(g, s, n, x)) % (R as int) == 0,
    decreases n,
{
    let m = R as int;
    if n > 0 {
        lemma_hsum_congruent(f, g, s + 1, (n - 1) as nat, x);
        let d = hsum(f, s + 1, (n - 1) as nat, x) - hsum(g, s + 1, (n - 1) as nat, x);
        assert((f(s) - g(s)) % m == 0);
        assert(hsum(f, s, n, x) - hsum(g, s, n, x) == (f(s) - g(s)) + x * d) by (nonlinear_arith)
            requires
                hsum(f, s, n, x) == f(s) + x * hsum(f, s + 1, (n - 1) as nat, x),
                hsum(g, s, n, x) == g(s) + x * hsum(g, s + 1, (n - 1) as nat, x),
                d == hsum(f, s + 1, (n - 1) as nat, x) - hsum(g, s + 1, (n - 1) as nat, x),
        ;
        lemma_mul_mod_noop_right(x, d, m);
        lemma_add_mod_noop(f(s) - g(s), x * d, m);
        lemma_small_mod(0, R as nat);
    }
}

/// `hsum` of a sum or difference of terms is the sum or difference of the `hsum`s.
pub proof fn lemma_hsum_linear(f: spec_fn(int) -> int, g: spec_fn(int) -> int, h: spec_fn(int) -> int, c: int, s: int, n: nat, x: int)
    requires
        forall|i: int| s <= i < s + n ==> #[trigger] h(i) == f(i) + c * g(i),
    ensures
        hsum(h, s, n, x) == hsum(f, s, n, x) + c * hsum(g, s, n, x),
    decreases n,
{
    if n > 0 {
        lemma_hsum_linear(f, g, h, c, s + 1, (n - 1) as nat, x);
        assert(h(s) == f(s) + c * g(s));
        let (hf, hg) = (hsum(f, s + 1, (n - 1) as nat, x), hsum(g, s + 1, (n - 1) as nat, x));
        assert(f(s) + c * g(s) + x * (hf + c * hg) == (f(s) + x * hf) + c * (g(s) + x * hg)) by (nonlinear_arith);
    }
}

/// Appending a top term: `hsum(f, s, n + 1) == hsum(f, s, n) + f(s + n) * x^n`.
pub(crate) proof fn lemma_hsum_top(f: spec_fn(int) -> int, s: int, n: nat, x: int)
    ensures
        hsum(f, s, n + 1, x) == hsum(f, s, n, x) + f(s + n) * pow(x, n),
    decreases n,
{
    reveal(pow);
    if n == 0 {
        assert(hsum(f, s + 1, 0, x) == 0);
        assert(pow(x, 0) == 1);
    } else {
        lemma_hsum_top(f, s + 1, (n - 1) as nat, x);
        let a = hsum(f, s + 1, (n - 1) as nat, x);
        let t = f(s + n) * pow(x, (n - 1) as nat);
        assert(pow(x, n) == x * pow(x, (n - 1) as nat));
        assert(f(s) + x * (a + t) == (f(s) + x * a) + f(s + n) * (x * pow(x, (n - 1) as nat))) by (nonlinear_arith)
            requires
                t == f(s + n) * pow(x, (n - 1) as nat),
        ;
    }
}

/// Leading terms that vanish shift the sum: if `f` is zero on `[s, s + j)` then
/// `hsum(f, s, n) == x^j * hsum(f, s + j, n - j)`.
proof fn lemma_hsum_shift(f: spec_fn(int) -> int, s: int, j: nat, n: nat, x: int)
    requires
        j <= n,
        forall|i: int| s <= i < s + j ==> #[trigger] f(i) == 0,
    ensures
        hsum(f, s, n, x) == pow(x, j) * hsum(f, s + j, (n - j) as nat, x),
    decreases j,
{
    reveal(pow);
    if j == 0 {
        assert(pow(x, 0) == 1);
    } else {
        lemma_hsum_shift(f, s + 1, (j - 1) as nat, (n - 1) as nat, x);
        let rest = hsum(f, s + j, (n - j) as nat, x);
        assert(f(s) == 0);
        assert(pow(x, j) == x * pow(x, (j - 1) as nat));
        assert(x * (pow(x, (j - 1) as nat) * rest) == (x * pow(x, (j - 1) as nat)) * rest) by (nonlinear_arith);
    }
}

/// The value of `p` at `x` is the integer evaluation of its residues, reduced modulo 17,
/// over any length that covers `p`.
pub proof fn lemma_seval_hsum(p: Seq<ScalarField>, x: ScalarField, n: nat)
    requires
        p.len() <= n,
    ensures
        seval(p, x).val() as int == hsum(icoeffs(p), 0, n, x.val() as int) % (R as int),
    decreases p.len(),
{
    let m = R as int;
    let xv = x.val() as int;
    lemma_hsum_zeros(icoeffs(p), 0, p.len(), n, xv);
    if p.len() == 0 {
        lemma_small_mod(0, R as nat);
    } else {
        let rest = p.drop_first();
        lemma_seval_hsum(rest, x, rest.len());
        assert forall|i: int| 1 <= i < 1 + rest.len() implies #[trigger] icoeffs(p)(i) == icoeffs(rest)(i - 1 + 0) by {
            assert(rest[i - 1] == p[i]);
        }
        lemma_hsum_ext(icoeffs(p), icoeffs(rest), 1, 0, rest.len(), xv);
        let h = hsum(icoeffs(rest), 0, rest.len(), xv);
        let c0 = p[0].val() as int;
        assert(icoeffs(p)(0) == c0);
        // seval(p) = p[0] + x * seval(rest)
        let sr = seval(rest, x);
        assert(x.smul(sr).val() as int == (xv * (h % m)) % m);
        lemma_mul_mod_noop_right(xv, h, m);
        lemma_add_mod_noop_right(c0, xv * h, m);
        lemma_add_mod_noop(c0, xv * h, m);
        assert(seval(p, x).val() as int == (c0 + (xv * h) % m) % m);
    }
}

/// Two coefficient sequences that agree modulo 17 at every index have the same value
/// everywhere, whatever their lengths.
pub proof fn lemma_seval_congruent(p: Seq<ScalarField>, q: Seq<ScalarField>, x: ScalarField)
    requires
        forall|i: int| #[trigger] (icoeffs(p)(i) - icoeffs(q)(i)) % (R as int) == 0,
    ensures
        seval(p, x) == seval(q, x),
{
    let n = if p.len() >= q.len() {
        p.len()
    } else {
        q.len()
    };
    let xv = x.val() as int;
    lemma_seval_hsum(p, x, n);
    lemma_seval_hsum(q, x, n);
    lemma_hsum_congruent(icoeffs(p), icoeffs(q), 0, n, xv);
    lemma_mod_equivalence(hsum(icoeffs(p), 0, n, xv), hsum(icoeffs(q), 0, n, xv), R as int);
    ScalarField::lemma_val_eq(seval(p, x), seval(q, x));
}

/// Dropping zero leading coefficients does not change the value.
pub proof fn lemma_seval_strim(p: Seq<ScalarField>, x: ScalarField)
    ensures
        seval(strim(p), x) == seval(p, x),
{
    lemma_strim(p);
    assert forall|i: int| #[trigger] (icoeffs(strim(p))(i) - icoeffs(p)(i)) % (R as int) == 0 by {
        if 0 <= i < p.len() && i >= strim(p).len() {
            assert(p[i] == ScalarField::szero());
        }
        if 0 <= i < strim(p).len() {
            assert(strim(p)[i] == p[i]);
        }
        lemma_small_mod(0, R as nat);
    }
    lemma_seval_congruent(strim(p), p, x);
}

/// The value of a sum of polynomials is the sum of their values.
pub proof fn lemma_eval_add(a: Seq<ScalarField>, b: Seq<ScalarField>, x: ScalarField)
    ensures
        seval(strim(sadd_coeffs(a, b)), x) == seval(a, x).sadd(seval(b, x)),
{
    let m = R as int;
    let xv = x.val() as int;
    let s = sadd_coeffs(a, b);
    let n = s.len();
    let f = |i: int| icoeffs(a)(i) + 1 * icoeffs(b)(i);
    lemma_seval_strim(s, x);
    lemma_seval_hsum(s, x, n);
    lemma_seval_hsum(a, x, n);
    lemma_seval_hsum(b, x, n);
    assert forall|i: int| 0 <= i < n implies #[trigger] (icoeffs(s)(i) - f(i)) % m == 0 by {
        lemma_mod_equivalence(icoeffs(s)(i), f(i), m);
        lemma_mod_twice(f(i), m);
    }
    lemma_hsum_congruent(icoeffs(s), f, 0, n, xv);
    lemma_hsum_linear(icoeffs(a), icoeffs(b), f, 1, 0, n, xv);
    let (hs, ha, hb) = (hsum(icoeffs(s), 0, n, xv), hsum(icoeffs(a), 0, n, xv), hsum(icoeffs(b), 0, n, xv));
    lemma_mod_equivalence(hs, ha + hb, m);
    lemma_add_mod_noop(ha, hb, m);
    ScalarField::lemma_val_eq(seval(s, x), seval(a, x).sadd(seval(b, x)));
}

/// The value of a difference of polynomials is the difference of their values.
pub proof fn lemma_eval_sub(a: Seq<ScalarField>, b: Seq<ScalarField>, x: ScalarField)
    ensures
        seval(strim(ssub_coeffs(a, b)), x) == seval(a, x).ssub(seval(b, x)),
{
    let m = R as int;
    let xv = x.val() as int;
    let s = ssub_coeffs(a, b);
    let n = s.len();
    let f = |i: int| icoeffs(a)(i) + (-1) * icoeffs(b)(i);
    lemma_seval_strim(s, x);
    lemma_seval_hsum(s, x, n);
    lemma_seval_hsum(a, x, n);
    lemma_seval_hsum(b, x, n);
    assert forall|i: int| 0 <= i < n implies #[trigger] (icoeffs(s)(i) - f(i)) % m == 0 by {
        lemma_mod_equivalence(icoeffs(s)(i), f(i), m);
        lemma_mod_twice(f(i), m);
    }
    lemma_hsum_congruent(icoeffs(s), f, 0, n, xv);
    lemma_hsum_linear(icoeffs(a), icoeffs(b), f, -1, 0, n, xv);
    let (hs, ha, hb) = (hsum(icoeffs(s), 0, n, xv), hsum(icoeffs(a), 0, n, xv), hsum(icoeffs(b), 0, n, xv));
    lemma_mod_equivalence(hs, ha - hb, m);
    lemma_sub_mod_noop(ha, hb, m);
    ScalarField::lemma_val_eq(seval(s, x), seval(a, x).ssub(seval(b, x)));
}

/// The integer evaluation of the residues of `p` at `x`.
pub open spec fn ival(p: Seq<ScalarField>, x: int) -> int {
    hsum(icoeffs(p), 0, p.len(), x)
}

/// Zero leading coefficients do not change the integer evaluation.
proof fn lemma_ival_strim(p: Seq<ScalarField>, x: int)
    ensures
        ival(strim(p), x) == ival(p, x),
{
    lemma_strim(p);
    let t = strim(p);
    assert forall|i: int| t.len() <= i < 0 + p.len() implies #[trigger] icoeffs(p)(i) == 0 by {
        assert(p[i] == ScalarField::szero());
    }
    lemma_hsum_zeros(icoeffs(p), 0, t.len(), p.len(), x);
    assert forall|i: int| 0 <= i < 0 + t.len() implies #[trigger] icoeffs(t)(i) == icoeffs(p)(i - 0 + 0) by {
        assert(t[i] == p[i]);
    }
    lemma_hsum_ext(icoeffs(t), icoeffs(p), 0, 0, t.len(), x);
}

/// A sequence of zeros evaluates to zero.
proof fn lemma_ival_zeros(p: Seq<ScalarField>, x: int)
    requires
        forall|i: int| 0 <= i < p.len() ==> #[trigger] p[i] == ScalarField::szero(),
    ensures
        ival(p, x) == 0,
{
    assert forall|i: int| 0 <= i < 0 + p.len() implies #[trigger] icoeffs(p)(i) == 0 by {
        assert(p[i] == ScalarField::szero());
    }
    lemma_hsum_all_zero(icoeffs(p), 0, p.len(), x);
}

/// Setting a zero coefficient `k` to `c` adds `c * x^k`.
proof fn lemma_ival_update(q: Seq<ScalarField>, k: int, c: ScalarField, x: int)
    requires
        0 <= k < q.len(),
        q[k] == ScalarField::szero(),
    ensures
        ival(q.update(k, c), x) == ival(q, x) + c.val() * pow(x, k as nat),
{
    let n = q.len();
    let q2 = q.update(k, c);
    let e = |i: int| if i == k { 1int } else { 0int };
    assert forall|i: int| 0 <= i < 0 + n implies #[trigger] icoeffs(q2)(i) == icoeffs(q)(i) + (c.val() as int) * e(i) by {
        if i == k {
            assert(q2[i] == c);
        } else {
            assert(q2[i] == q[i]);
        }
    }
    lemma_hsum_linear(icoeffs(q), e, icoeffs(q2), c.val() as int, 0, n, x);
    lemma_hsum_shift(e, 0, k as nat, n, x);
    lemma_hsum_all_zero(e, k + 1, (n - k - 1) as nat, x);
    assert(hsum(e, 0 + k, (n - k) as nat, x) == 1);
}

/// Subtracting `c * x^k * d` coefficient by coefficient subtracts it from the value.
proof fn lemma_ival_ssub_scaled(rem: Seq<ScalarField>, d: Seq<ScalarField>, c: ScalarField, k: int, x: int)
    requires
        0 <= k,
        k + d.len() <= rem.len(),
    ensures
        (ival(ssub_scaled(rem, d, c, k), x) - (ival(rem, x) - c.val() * pow(x, k as nat) * ival(d, x)))
            % (R as int) == 0,
{
    let m = R as int;
    let n = rem.len();
    let dl = d.len();
    let ss = ssub_scaled(rem, d, c, k);
    let cv = c.val() as int;
    let g = |i: int| if k <= i < k + dl { icoeffs(d)(i - k) } else { 0int };
    let h = |i: int| icoeffs(rem)(i) + (-cv) * g(i);
    assert forall|i: int| 0 <= i < 0 + n implies #[trigger] (icoeffs(ss)(i) - h(i)) % m == 0 by {
        if k <= i < k + dl {
            let a = rem[i].val() as int;
            let b = d[i - k].val() as int;
            assert(icoeffs(ss)(i) == (a - (cv * b) % m) % m);
            assert(g(i) == b);
            assert((-cv) * b == -(cv * b)) by (nonlinear_arith);
            assert(h(i) == a - cv * b);
            lemma_sub_mod_noop_right(a, cv * b, m);
            lemma_mod_equivalence(a - cv * b, h(i), m);
            lemma_mod_equivalence((a - (cv * b) % m) % m, a - cv * b, m);
            lemma_mod_twice(a - cv * b, m);
            lemma_small_mod(0, R as nat);
        } else {
            lemma_small_mod(0, R as nat);
        }
    }
    lemma_hsum_congruent(icoeffs(ss), h, 0, n, x);
    lemma_hsum_linear(icoeffs(rem), g, h, -cv, 0, n, x);
    lemma_hsum_shift(g, 0, k as nat, n, x);
    assert forall|i: int| 0 + k <= i < 0 + k + (n - k) implies #[trigger] g(i) == icoeffs(d)(i - (0 + k) + 0) by {
    }
    lemma_hsum_ext(g, icoeffs(d), 0 + k, 0, (n - k) as nat, x);
    assert forall|i: int| 0 + dl <= i < 0 + (n - k) implies #[trigger] icoeffs(d)(i) == 0 by {
    }
    lemma_hsum_zeros(icoeffs(d), 0, dl, (n - k) as nat, x);
    assert(hsum(g, 0, n, x) == pow(x, k as nat) * ival(d, x));
    assert(hsum(h, 0, n, x) == ival(rem, x) + (-cv) * (pow(x, k as nat) * ival(d, x)));
    assert((-cv) * (pow(x, k as nat) * ival(d, x)) == -(cv * pow(x, k as nat) * ival(d, x))) by (nonlinear_arith);
}

/// The long division loop keeps `q * d + rem` unchanged modulo 17 and stops with a
/// remainder shorter than `d`.
proof fn lemma_div_loop(q: Seq<ScalarField>, rem: Seq<ScalarField>, d: Seq<ScalarField>, lead_inv: ScalarField, x: int)
    requires
        d.len() > 0,
        d.last().val() % (R as nat) != 0,
        lead_inv == d.last().sinv(),
        rem.len() < q.len() + d.len(),
        forall|j: int| 0 <= j && j + d.len() <= rem.len() ==> #[trigger] q[j] == ScalarField::szero(),
    ensures
        ({
            let (q2, r2) = sdiv_loop(q, rem, d, lead_inv);
            &&& (ival(q2, x) * ival(d, x) + ival(r2, x) - (ival(q, x) * ival(d, x) + ival(rem, x)))
                % (R as int) == 0
            &&& r2.len() < d.len()
        }),
    decreases rem.len(),
{
    let m = R as int;
    if !(rem.len() == 0 || rem.len() < d.len() || d.len() == 0) {
        let c = rem.last().smul(lead_inv);
        let k = rem.len() - d.len();
        let ss = ssub_scaled(rem, d, c, k);
        let rem2 = strim(ss);
        let q2 = q.update(k, c);
        // The leading coefficient cancels, so the remainder shrinks.
        ScalarField::lemma_cancel(rem.last(), d.last());
        assert(ss.last() == rem.last().ssub(c.smul(d[d.len() - 1])));
        assert(ss.last() == ScalarField::szero());
        lemma_strim(ss.drop_last());
        assert(strim(ss) == strim(ss.drop_last()));
        assert(rem2.len() < rem.len());
        assert forall|j: int| 0 <= j && j + d.len() <= rem2.len() implies #[trigger] q2[j] == ScalarField::szero() by {
            assert(q2[j] == q[j]);
        }
        lemma_div_loop(q2, rem2, d, lead_inv, x);
        lemma_ival_update(q, k, c, x);
        lemma_ival_ssub_scaled(rem, d, c, k, x);
        lemma_ival_strim(ss, x);
        let (qf, rf) = sdiv_loop(q2, rem2, d, lead_inv);
        let p = c.val() * pow(x, k as nat);
        let (iq, iq2, ir, ir2, id) = (ival(q, x), ival(q2, x), ival(rem, x), ival(rem2, x), ival(d, x));
        let e_final = ival(qf, x) * id + ival(rf, x);
        assert(iq2 * id + ir2 - (iq * id + ir) == ir2 - (ir - c.val() * pow(x, k as nat) * id)) by (nonlinear_arith)
            requires
                iq2 == iq + c.val() * pow(x, k as nat),
        ;
        lemma_add_mod_noop(e_final - (iq2 * id + ir2), iq2 * id + ir2 - (iq * id + ir), m);
        lemma_small_mod(0, R as nat);
    } else {
        lemma_small_mod(0, R as nat);
    }
}

/// Long division by `d` with a non-zero leading coefficient: `f(x) == q(x) * d(x) + r(x)`
/// at every `x`, and the remainder `r` is shorter than `d`.
pub proof fn lemma_divide(f: Seq<ScalarField>, d: Seq<ScalarField>, x: ScalarField)
    requires
        d.len() > 0,
        d.last().val() % (R as nat) != 0,
    ensures
        seval(f, x) == seval(sdivide(f, d).0, x).smul(seval(d, x)).sadd(seval(sdivide(f, d).1, x)),
        sdivide(f, d).1.len() < d.len(),
{
    let m = R as int;
    let xv = x.val() as int;
    let (q, r) = sdivide(f, d);
    if f.len() == 0 {
        lemma_ival_zeros(q, xv);
        lemma_ival_zeros(r, xv);
        lemma_ival_zeros(f, xv);
    } else if f.len() < d.len() {
        lemma_ival_zeros(q, xv);
    } else {
        let q0 = Seq::new((f.len() - d.len() + 1) as nat, |i: int| ScalarField::szero());
        lemma_div_loop(q0, f, d, d.last().sinv(), xv);
        lemma_ival_zeros(q0, xv);
        lemma_ival_strim(sdiv_loop(q0, f, d, d.last().sinv()).0, xv);
    }
    assert((ival(q, xv) * ival(d, xv) + ival(r, xv) - ival(f, xv)) % m == 0) by {
        if f.len() < d.len() {
            lemma_small_mod(0, R as nat);
        }
    }
    lemma_seval_hsum(f, x, f.len());
    lemma_seval_hsum(q, x, q.len());
    lemma_seval_hsum(d, x, d.len());
    lemma_seval_hsum(r, x, r.len());
    let (iq, id, ir, iff) = (ival(q, xv), ival(d, xv), ival(r, xv), ival(f, xv));
    lemma_mul_mod_noop(iq, id, m);
    lemma_add_mod_noop(iq * id, ir, m);
    lemma_mod_equivalence(iq * id + ir, iff, m);
    ScalarField::lemma_val_eq(seval(f, x), seval(q, x).smul(seval(d, x)).sadd(seval(r, x)));
}

/// The residues of `sconv(a, b, k, i)` as a function of `k`.
pub open spec fn iconv(a: Seq<ScalarField>, b: Seq<ScalarField>, i: nat) -> spec_fn(int) -> int {
    |k: int| sconv(a, b, k, i).val() as int
}

/// `b` shifted up by `i` places, as integers.
pub open spec fn ishifted(b: Seq<ScalarField>, i: int) -> spec_fn(int) -> int {
    |k: int| if 0 <= k - i < b.len() { icoeffs(b)(k - i) } else { 0int }
}

/// `b` shifted up by `i` places evaluates to `x^i * b(x)`.
pub proof fn lemma_hsum_shifted(b: Seq<ScalarField>, i: nat, n: nat, x: int)
    requires
        i + b.len() <= n,
    ensures
        hsum(ishifted(b, i as int), 0, n, x) == pow(x, i) * ival(b, x),
{
    let g = ishifted(b, i as int);
    lemma_hsum_shift(g, 0, i, n, x);
    assert forall|k: int| 0 + i <= k < 0 + i + (n - i) implies #[trigger] g(k) == icoeffs(b)(k - (0 + i) + 0) by {
    }
    lemma_hsum_ext(g, icoeffs(b), i as int, 0, (n - i) as nat, x);
    assert forall|k: int| 0 + b.len() <= k < 0 + (n - i) implies #[trigger] icoeffs(b)(k) == 0 by {
    }
    lemma_hsum_zeros(icoeffs(b), 0, b.len(), (n - i) as nat, x);
}

/// The partial convolutions over the first `i` coefficients of `a` evaluate, modulo 17, to
/// `(a[0] + ... + a[i - 1] x^(i - 1)) * b(x)`.
proof fn lemma_sconv_hsum(a: Seq<ScalarField>, b: Seq<ScalarField>, i: nat, x: int)
    requires
        a.len() > 0,
        b.len() > 0,
        i <= a.len(),
    ensures
        (hsum(iconv(a, b, i), 0, (a.len() + b.len() - 1) as nat, x) - hsum(icoeffs(a), 0, i, x)
            * ival(b, x)) % (R as int) == 0,
    decreases i,
{
    let m = R as int;
    let n = (a.len() + b.len() - 1) as nat;
    lemma_small_mod(0, R as nat);
    if i == 0 {
        assert forall|k: int| 0 <= k < 0 + n implies #[trigger] iconv(a, b, 0)(k) == 0 by {
        }
        lemma_hsum_all_zero(iconv(a, b, 0), 0, n, x);
        assert(hsum(icoeffs(a), 0, 0, x) == 0);
    } else {
        let j = (i - 1) as nat;
        lemma_sconv_hsum(a, b, j, x);
        let av = a[j as int].val() as int;
        let g = ishifted(b, j as int);
        let h = |k: int| iconv(a, b, j)(k) + av * g(k);
        assert forall|k: int| 0 <= k < 0 + n implies #[trigger] (iconv(a, b, i)(k) - h(k)) % m == 0 by {
            let prev = iconv(a, b, j)(k);
            if 0 <= k - j < b.len() {
                let bv = b[k - j].val() as int;
                assert(g(k) == bv);
                assert(iconv(a, b, i)(k) == (prev + (av * bv) % m) % m);
                lemma_add_mod_noop_right(prev, av * bv, m);
                lemma_mod_equivalence(iconv(a, b, i)(k), h(k), m);
                lemma_mod_twice(prev + av * bv, m);
            } else {
                assert(g(k) == 0);
                assert(av * g(k) == 0) by (nonlinear_arith)
                    requires
                        g(k) == 0,
                ;
                assert(iconv(a, b, i)(k) == (prev + 0) % m);
                lemma_mod_equivalence(iconv(a, b, i)(k), h(k), m);
                lemma_mod_twice(prev, m);
            }
        }
        lemma_hsum_congruent(iconv(a, b, i), h, 0, n, x);
        lemma_hsum_linear(iconv(a, b, j), g, h, av, 0, n, x);
        lemma_hsum_shifted(b, j, n, x);
        lemma_hsum_top(icoeffs(a), 0, j, x);
        let (sj, si) = (hsum(iconv(a, b, j), 0, n, x), hsum(iconv(a, b, i), 0, n, x));
        let (pj, pi) = (hsum(icoeffs(a), 0, j, x), hsum(icoeffs(a), 0, i, x));
        let (bx, xj) = (ival(b, x), pow(x, j));
        assert(icoeffs(a)(j as int) == av);
        assert(si - pi * bx == (si - (sj + av * (xj * bx))) + (sj - pj * bx)) by (nonlinear_arith)
            requires
                pi == pj + av * xj,
        ;
        lemma_add_mod_noop(si - (sj + av * (xj * bx)), sj - pj * bx, m);
    }
}

/// The value of a product of polynomials is the product of their values.
pub proof fn lemma_eval_mul(a: Seq<ScalarField>, b: Seq<ScalarField>, x: ScalarField)
    ensures
        seval(strim(sprod(a, b)), x) == seval(a, x).smul(seval(b, x)),
{
    let m = R as int;
    let xv = x.val() as int;
    let p = sprod(a, b);
    lemma_seval_strim(p, x);
    lemma_seval_hsum(p, x, p.len());
    lemma_seval_hsum(a, x, a.len());
    lemma_seval_hsum(b, x, b.len());
    lemma_small_mod(0, R as nat);
    if a.len() == 0 || b.len() == 0 {
        assert(p.len() == 0);
        let (va, vb) = (seval(a, x).val() as int, seval(b, x).val() as int);
        assert(va * vb == 0) by (nonlinear_arith)
            requires
                va == 0 || vb == 0,
        ;
        ScalarField::lemma_val_eq(seval(p, x), seval(a, x).smul(seval(b, x)));
    } else {
        let n = (a.len() + b.len() - 1) as nat;
        lemma_sconv_hsum(a, b, a.len(), xv);
        assert forall|k: int| 0 <= k < 0 + n implies #[trigger] icoeffs(p)(k) == iconv(a, b, a.len())(k - 0 + 0) by {
        }
        lemma_hsum_ext(icoeffs(p), iconv(a, b, a.len()), 0, 0, n, xv);
        let (ip, ia, ib) = (ival(p, xv), ival(a, xv), ival(b, xv));
        lemma_mul_mod_noop(ia, ib, m);
        lemma_mod_equivalence(ip, ia * ib, m);
        ScalarField::lemma_val_eq(seval(p, x), seval(a, x).smul(seval(b, x)));
    }
}

/// A constant polynomial takes its value everywhere.
pub proof fn lemma_eval_constant(c: ScalarField, y: ScalarField)
    requires
        c.canon(),
    ensures
        seval(seq![c], y) == c,
{
    let e = seval(Seq::<ScalarField>::empty(), y);
    assert(e == ScalarField::szero());
    lemma_small_mod(0, R as nat);
    assert(y.val() * e.val() == 0) by (nonlinear_arith)
        requires
            e.val() == 0,
    ;
    assert(seq![c].drop_first() =~= Seq::<ScalarField>::empty());
    assert(seval(seq![c], y) == c.sadd(y.smul(e)));
    lemma_small_mod(c.val(), R as nat);
    ScalarField::lemma_val_eq(seval(seq![c], y), c);
}

/// `x - a` evaluates to `y - a` at `y`.
pub proof fn lemma_eval_linear(a: ScalarField, y: ScalarField)
    ensures
        seval(seq![a.sneg(), ScalarField::sone()], y) == y.ssub(a),
{
    let m = R as int;
    let d = seq![a.sneg(), ScalarField::sone()];
    let one_seq = seq![ScalarField::sone()];
    lemma_small_mod(1, R as nat);
    lemma_eval_constant(ScalarField::sone(), y);
    assert(d.drop_first() =~= one_seq);
    assert(seval(d, y) == a.sneg().sadd(y.smul(seval(one_seq, y))));
    lemma_add_mod_noop(-(a.val() as int), y.val() as int, m);
    lemma_mod_twice(-(a.val() as int), m);
    ScalarField::lemma_val_eq(seval(d, y), y.ssub(a));
}

/// `x - a` has no zero leading coefficient.
pub proof fn lemma_linear_trimmed(a: ScalarField)
    ensures
        strim(seq![a.sneg(), ScalarField::sone()]) == seq![a.sneg(), ScalarField::sone()],
        seq![a.sneg(), ScalarField::sone()].last().val() % (R as nat) != 0,
{
    let d = seq![a.sneg(), ScalarField::sone()];
    lemma_small_mod(1, R as nat);
    assert(d.last() == ScalarField::sone());
    assert(ScalarField::sone().val() == 1);
    assert(is_trimmed(d));
    lemma_strim(d);
}

/// A polynomial with at most one coefficient takes the same value everywhere.
proof fn lemma_constant_eval(r: Seq<ScalarField>, x: ScalarField, z: ScalarField)
    requires
        r.len() < 2,
    ensures
        seval(r, x) == seval(r, z),
{
    if r.len() == 1 {
        assert(r.drop_first() =~= Seq::<ScalarField>::empty());
        let ex = seval(Seq::<ScalarField>::empty(), x);
        let ez = seval(Seq::<ScalarField>::empty(), z);
        assert(ex == ScalarField::szero() && ez == ScalarField::szero());
        lemma_small_mod(0, R as nat);
        assert(x.val() * ex.val() == 0 && z.val() * ez.val() == 0) by (nonlinear_arith)
            requires
                ex.val() == 0,
                ez.val() == 0,
        ;
        assert(x.smul(ex).val() == 0 && z.smul(ez).val() == 0);
        assert(seval(r, x) == r[0].sadd(x.smul(ex)));
        assert(seval(r, z) == r[0].sadd(z.smul(ez)));
        ScalarField::lemma_val_eq(seval(r, x), seval(r, z));
    }
}

/// Division by `x - a`: `f(x) == q(x) * (x - a) + f(a)` at every `x` (the remainder is the
/// value at `a`).
pub proof fn lemma_divide_linear(f: Seq<ScalarField>, a: ScalarField, x: ScalarField)
    ensures
        seval(f, x) == seval(sdivide(f, seq![a.sneg(), ScalarField::sone()]).0, x).smul(x.ssub(a)).sadd(
            seval(f, a),
        ),
{
    let m = R as int;
    let d = seq![a.sneg(), ScalarField::sone()];
    lemma_linear_trimmed(a);
    let (q, r) = sdivide(f, d);
    lemma_divide(f, d, x);
    lemma_divide(f, d, a);
    lemma_eval_linear(a, x);
    lemma_eval_linear(a, a);
    lemma_constant_eval(r, x, a);
    // at a: f(a) == q(a) * 0 + r(a) == r(a)
    assert(seval(f, a) == seval(r, a)) by {
        let aa = a.ssub(a);
        assert(aa.val() == 0) by {
            lemma_small_mod(0, R as nat);
        }
        let qa = seval(q, a);
        assert(qa.val() * aa.val() == 0) by (nonlinear_arith)
            requires
                aa.val() == 0,
        ;
        lemma_small_mod(0, R as nat);
        assert(qa.smul(aa).val() == 0);
        lemma_mod_twice(seval(r, a).val() as int, m);
        ScalarField::lemma_val_eq(seval(f, a), seval(r, a));
    }
}

/// Values of polynomials are canonical residues.
pub proof fn lemma_seval_canon(p: Seq<ScalarField>, x: ScalarField)
    ensures
        seval(p, x).canon(),
        seval(p, x).val() < R,
{
}

/// If `u * v == 0` with `v` non-zero, then `u == 0`.
proof fn lemma_cancel_nonzero(u: ScalarField, v: ScalarField)
    requires
        u.canon(),
        v.val() % (R as nat) != 0,
        u.smul(v).val() == 0,
    ensures
        u == ScalarField::szero(),
{
    lemma_small_mod(0, R as nat);
    if u.val() % (R as nat) != 0 {
        lemma_prime_17();
        lemma_no_zero_divisors(u.val(), v.val(), R as nat);
    }
    lemma_small_mod(u.val(), R as nat);
    ScalarField::lemma_val_eq(u, ScalarField::szero());
}

/// A polynomial with at most `n` coefficients that vanishes at `n` distinct points is
/// zero everywhere.
pub proof fn lemma_root_count(p: Seq<ScalarField>, pts: Seq<ScalarField>, x: ScalarField)
    requires
        p.len() <= pts.len(),
        forall|i: int, j: int| 0 <= i < j < pts.len() ==> pts[i] != pts[j],
        forall|i: int| 0 <= i < pts.len() ==> #[trigger] pts[i].canon(),
        forall|i: int| 0 <= i < pts.len() ==> #[trigger] seval(p, pts[i]) == ScalarField::szero(),
    ensures
        seval(p, x) == ScalarField::szero(),
    decreases pts.len(),
{
    let m = R as int;
    lemma_small_mod(0, R as nat);
    if pts.len() > 0 {
        let n = pts.len();
        let a = pts[n - 1];
        assert(pts[n - 1].canon());
        let rest = pts.drop_last();
        let d = seq![a.sneg(), ScalarField::sone()];
        let q = sdivide(p, d).0;
        lemma_sdivide_len(p, d);
        assert(seval(p, a) == ScalarField::szero());
        assert forall|i: int| 0 <= i < rest.len() implies #[trigger] seval(q, rest[i]) == ScalarField::szero() by {
            let y = rest[i];
            assert(y == pts[i]);
            assert(y.canon() && y != a);
            lemma_divide_linear(p, a, y);
            let u = seval(q, y);
            let v = y.ssub(a);
            lemma_seval_canon(q, y);
            assert(u.smul(v).sadd(ScalarField::szero()) == ScalarField::szero());
            lemma_small_mod(u.smul(v).val(), R as nat);
            assert(u.smul(v).val() == 0);
            assert(v.val() % (R as nat) != 0) by {
                lemma_small_mod(v.val(), R as nat);
                lemma_small_mod(y.val(), R as nat);
                lemma_small_mod(a.val(), R as nat);
                if v.val() == 0 {
                    lemma_mod_equivalence(y.val() as int, a.val() as int, m);
                    ScalarField::lemma_val_eq(y, a);
                }
            }
            lemma_cancel_nonzero(u, v);
        }
        lemma_root_count(q, rest, x);
        lemma_divide_linear(p, a, x);
        let v = x.ssub(a);
        assert(ScalarField::szero().val() * v.val() == 0) by (nonlinear_arith)
            requires
                ScalarField::szero().val() == 0,
        ;
        ScalarField::lemma_val_eq(seval(p, x), ScalarField::szero());
    }
}

/// `w^(i + k) == w^i w^k`, on the residues.
pub proof fn lemma_fpow_add_val(w: ScalarField, i: nat, k: nat)
    ensures
        fpow(w, i + k).val() == (fpow(w, i).val() * fpow(w, k).val()) % (R as nat),
{
    let wv = w.val() as int;
    lemma_fpow_val(w, i + k);
    lemma_fpow_val(w, i);
    lemma_fpow_val(w, k);
    lemma_pow_adds(wv, i, k);
    lemma_mul_mod_noop(pow(wv, i), pow(wv, k), R as int);
}

/// `fpow` is the integer power reduced modulo 17.
pub proof fn lemma_fpow_val(w: ScalarField, n: nat)
    ensures
        fpow(w, n).val() as int == pow(w.val() as int, n) % (R as int),
    decreases n,
{
    let m = R as int;
    let wv = w.val() as int;
    reveal(pow);
    if n == 0 {
        lemma_small_mod(1, R as nat);
    } else {
        lemma_fpow_val(w, (n - 1) as nat);
        let pn = pow(wv, (n - 1) as nat);
        lemma_mul_mod_noop_left(pn, wv, m);
        assert(pow(wv, n) == wv * pn);
        assert(wv * pn == pn * wv) by (nonlinear_arith);
    }
}

/// Integer evaluations at congruent points are congruent.
proof fn lemma_hsum_x_congruent(f: spec_fn(int) -> int, s: int, n: nat, x: int, y: int)
    requires
        (x - y) % (R as int) == 0,
    ensures
        (hsum(f, s, n, x) - hsum(f, s, n, y)) % (R as int) == 0,
    decreases n,
{
    let m = R as int;
    lemma_small_mod(0, R as nat);
    if n > 0 {
        lemma_hsum_x_congruent(f, s + 1, (n - 1) as nat, x, y);
        let (hx, hy) = (hsum(f, s + 1, (n - 1) as nat, x), hsum(f, s + 1, (n - 1) as nat, y));
        assert(x * hx - y * hy == x * (hx - hy) + hy * (x - y)) by (nonlinear_arith);
        lemma_mul_mod_noop_right(x, hx - hy, m);
        lemma_mul_mod_noop_right(hy, x - y, m);
        lemma_add_mod_noop(x * (hx - hy), hy * (x - y), m);
    }
}

/// Scaling the `i`-th term by `w^i` is evaluating at `w * x`.
proof fn lemma_hsum_scaled_powers(g: spec_fn(int) -> int, n: nat, w: int, x: int)
    ensures
        hsum(|i: int| g(i) * pow(w, i as nat), 0, n, x) == hsum(g, 0, n, w * x),
    decreases n,
{
    let f = |i: int| g(i) * pow(w, i as nat);
    if n > 0 {
        let k = (n - 1) as nat;
        lemma_hsum_scaled_powers(g, k, w, x);
        lemma_hsum_top(f, 0, k, x);
        lemma_hsum_top(g, 0, k, w * x);
        lemma_pow_distributes(w, x, k);
        assert(f(k as int) == g(k as int) * pow(w, k));
        assert(g(k as int) * pow(w, k) * pow(x, k) == g(k as int) * (pow(w, k) * pow(x, k))) by (nonlinear_arith);
    }
}

/// The coefficients `p[i] * w^i` are those of `p(w x)`.
pub proof fn lemma_eval_shift(p: Seq<ScalarField>, w: ScalarField, x: ScalarField)
    ensures
        seval(sshift(p, w), x) == seval(p, w.smul(x)),
{
    let m = R as int;
    let (wv, xv) = (w.val() as int, x.val() as int);
    let s = sshift(p, w);
    let n = p.len();
    let f = |i: int| icoeffs(p)(i) * pow(wv, i as nat);
    assert forall|i: int| 0 <= i < 0 + n implies #[trigger] (icoeffs(s)(i) - f(i)) % m == 0 by {
        let a = p[i].val() as int;
        lemma_fpow_val(w, i as nat);
        assert(icoeffs(s)(i) == (a * (pow(wv, i as nat) % m)) % m);
        lemma_mul_mod_noop_right(a, pow(wv, i as nat), m);
        lemma_mod_equivalence(icoeffs(s)(i), f(i), m);
        lemma_mod_twice(a * pow(wv, i as nat), m);
    }
    lemma_hsum_congruent(icoeffs(s), f, 0, n, xv);
    lemma_hsum_scaled_powers(icoeffs(p), n, wv, xv);
    let y = w.smul(x);
    assert(y.val() as int == (wv * xv) % m);
    lemma_mod_equivalence(wv * xv, y.val() as int, m);
    lemma_mod_twice(wv * xv, m);
    lemma_hsum_x_congruent(icoeffs(p), 0, n, wv * xv, y.val() as int);
    lemma_seval_hsum(s, x, n);
    lemma_seval_hsum(p, y, n);
    let (a, b, c) = (hsum(icoeffs(s), 0, n, xv), hsum(f, 0, n, xv), hsum(icoeffs(p), 0, n, y.val() as int));
    assert((a - c) % m == 0) by {
        lemma_add_mod_noop(a - b, b - c, m);
        lemma_small_mod(0, R as nat);
    }
    lemma_mod_equivalence(a, c, m);
    ScalarField::lemma_val_eq(seval(s, x), seval(p, y));
}

/// `x^n - 1` evaluates to `y^n - 1`.
pub proof fn lemma_subgroup_vanishing_eval(n: nat, y: ScalarField)
    requires
        n > 0,
    ensures
        seval(ssubgroup_vanishing(n), y) == fpow(y, n).ssub(ScalarField::sone()),
{
    let m = R as int;
    let yv = y.val() as int;
    let s = ssubgroup_vanishing(n);
    let e0 = |i: int| if i == 0 { 1int } else { 0int };
    let en = |i: int| if i == n { 1int } else { 0int };
    let h = |i: int| en(i) + (-1) * e0(i);
    lemma_small_mod(0, R as nat);
    lemma_small_mod(1, R as nat);
    assert forall|i: int| 0 <= i < 0 + (n + 1) implies #[trigger] (icoeffs(s)(i) - h(i)) % m == 0 by {
        if i == 0 {
            assert(icoeffs(s)(i) == (-1int) % m);
            lemma_mod_equivalence(-1, h(i), m);
            lemma_mod_equivalence(icoeffs(s)(i), h(i), m);
            lemma_mod_twice(-1, m);
        }
    }
    lemma_hsum_congruent(icoeffs(s), h, 0, n + 1, yv);
    lemma_hsum_linear(en, e0, h, -1, 0, n + 1, yv);
    lemma_hsum_all_zero(e0, 1, n, yv);
    lemma_hsum_shift(en, 0, n, n + 1, yv);
    lemma_hsum_all_zero(en, (n + 1) as int, 0, yv);
    assert(hsum(en, n as int, 1, yv) == 1);
    let pn = pow(yv, n);
    assert(hsum(h, 0, n + 1, yv) == pn - 1);
    lemma_seval_hsum(s, y, n + 1);
    lemma_fpow_val(y, n);
    lemma_sub_mod_noop(pn, 1, m);
    lemma_mod_equivalence(hsum(icoeffs(s), 0, n + 1, yv), pn - 1, m);
    ScalarField::lemma_val_eq(seval(s, y), fpow(y, n).ssub(ScalarField::sone()));
}

/// `x^n - 1` vanishes at every power of an `n`-th root of unity.
pub proof fn lemma_subgroup_vanishing_root(n: nat, w: ScalarField, k: nat)
    requires
        n > 0,
        fpow(w, n) == ScalarField::sone(),
    ensures
        seval(ssubgroup_vanishing(n), fpow(w, k)) == ScalarField::szero(),
{
    let m = R as int;
    let wv = w.val() as int;
    let y = fpow(w, k);
    lemma_subgroup_vanishing_eval(n, y);
    lemma_fpow_val(y, n);
    lemma_fpow_val(w, k);
    lemma_fpow_val(w, n);
    lemma_small_mod(1, R as nat);
    lemma_small_mod(0, R as nat);
    assert(pow(wv, n) % m == 1);
    lemma_pow_mod_noop(pow(wv, k), n, m);
    lemma_pow_multiplies(wv, k, n);
    lemma_pow_multiplies(wv, n, k);
    assert(k * n == n * k) by (nonlinear_arith);
    lemma_pow_mod_noop(pow(wv, n), k, m);
    lemma1_pow(k);
    assert(fpow(y, n).val() == 1);
    ScalarField::lemma_val_eq(fpow(y, n).ssub(ScalarField::sone()), ScalarField::szero());
}

/// `w * w^j == w^(j + 1)`.
pub proof fn lemma_fpow_succ(w: ScalarField, j: nat)
    ensures
        w.smul(fpow(w, j)) == fpow(w, j + 1),
{
    ScalarField::lemma_mul_comm_one(w, fpow(w, j));
}

/// `(w * w * w)^i == w^(3 i)`.
pub proof fn lemma_fpow_cube(w: ScalarField, i: nat)
    ensures
        fpow(w.smul(w).smul(w), i) == fpow(w, 3 * i),
{
    let m = R as int;
    let wv = w.val() as int;
    let c = w.smul(w).smul(w);
    lemma_fpow_val(c, i);
    lemma_fpow_val(w, 3 * i);
    lemma_mul_mod_noop_left(wv * wv, wv, m);
    assert(c.val() as int == (wv * wv * wv) % m);
    lemma_pow1(wv);
    lemma_pow_adds(wv, 1, 1);
    lemma_pow_adds(wv, 1, 2);
    assert(pow(wv, 3) == wv * (wv * wv));
    assert(wv * (wv * wv) == wv * wv * wv) by (nonlinear_arith);
    lemma_pow_mod_noop(wv * wv * wv, i, m);
    lemma_pow_multiplies(wv, 3, i);
    ScalarField::lemma_val_eq(fpow(c, i), fpow(w, 3 * i));
}

} // verus!
