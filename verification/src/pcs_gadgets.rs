//! Polynomial IOP gadgets on top of KZG: the zero test, the product check and the
//! prescribed permutation check, with the domains and polynomials that they use.
use crate::field::{ScalarField, R};
use crate::kzg::{
    is_setup_srs, scommit, sopen_proof, sverify_defined, sverify_sides, PolyCommit, KZG10, SRS,
};
use crate::kzg_laws::lemma_kzg_complete;
use crate::poly::{
    sconv, coeff, fpow, is_trimmed, lemma_sdivide_len, lemma_strim, sdivide, seval, sprod, sshift,
    ssub_coeffs, strim, DensePolynomial,
};
use crate::poly_laws::{
    hsum, icoeffs, ishifted, ival, lemma_divide, lemma_eval_constant, lemma_eval_linear, lemma_eval_mul,
    lemma_hsum_congruent, lemma_hsum_linear, lemma_hsum_shifted, lemma_hsum_zeros, lemma_root_count,
    lemma_eval_shift, lemma_eval_sub, lemma_seval_canon, lemma_seval_hsum, lemma_seval_strim,
    lemma_subgroup_vanishing_root,
};
use crate::arith::{lemma_no_zero_divisors, lemma_prime_17};
use crate::tiny_field::G1Point;
use vstd::arithmetic::div_mod::*;
use vstd::prelude::*;

verus! {

broadcast use ScalarField::group_scalar_field;

/// The number of points of `linear_domain(n, step)`.
pub open spec fn linear_domain_len(n: nat, step: nat) -> nat {
    if n == 0 {
        0
    } else {
        ((n - 1) as nat / step + 1) as nat
    }
}

proof fn lemma_step_bound(k: nat, m: nat, step: nat)
    requires
        step > 0,
        k <= m / step,
    ensures
        k * step <= m,
{
    vstd::arithmetic::div_mod::lemma_fundamental_div_mod(m as int, step as int);
    vstd::arithmetic::mul::lemma_mul_inequality(k as int, (m / step) as int, step as int);
    vstd::arithmetic::mul::lemma_mul_is_commutative(step as int, (m / step) as int);
}

/// `1, 1 + step, 1 + 2 * step, ...` up to `n`, as field elements.
pub fn linear_domain(n: usize, step: usize) -> (r: Vec<ScalarField>)
    requires
        step > 0,
    ensures
        r@ == Seq::new(
            linear_domain_len(n as nat, step as nat),
            |k: int| ScalarField::from_int(1 + k * step),
        ),
{
    let mut out: Vec<ScalarField> = Vec::new();
    if n == 0 {
        return out;
    }
    let count = (n - 1) / step + 1;
    assert(count == linear_domain_len(n as nat, step as nat));
    let mut k: usize = 0;
    while k < count
        invariant
            step > 0,
            n > 0,
            count == ((n - 1) as nat) / (step as nat) + 1,
            k <= count,
            out@ =~= Seq::new(k as nat, |j: int| ScalarField::from_int(1 + j * step)),
        decreases count - k,
    {
        proof {
            lemma_step_bound(k as nat, (n - 1) as nat, step as nat);
        }
        let i = 1 + k * step;
        out.push(ScalarField::from_u64(i as u64));
        k = k + 1;
    }
    out
}

/// `1, omega, omega^2, ..., omega^(n - 1)`.
pub open spec fn smult_domain(n: nat, omega: ScalarField) -> Seq<ScalarField> {
    Seq::new(n, |k: int| fpow(omega, k as nat))
}

/// `1, omega, omega^2, ..., omega^(n - 1)`.
pub fn multiplicative_domain(n: usize, omega: ScalarField) -> (r: Vec<ScalarField>)
    ensures
        r@ == smult_domain(n as nat, omega),
{
    let mut out: Vec<ScalarField> = Vec::new();
    if n == 0 {
        return out;
    }
    let mut cur = ScalarField::one();
    let mut i: usize = 0;
    while i < n
        invariant
            i <= n,
            cur == fpow(omega, i as nat),
            out@ =~= Seq::new(i as nat, |k: int| fpow(omega, k as nat)),
        decreases n - i,
    {
        out.push(cur);
        cur = cur.mul(&omega);
        i = i + 1;
    }
    out
}


/// The coefficients of `x - a`.
pub open spec fn slinear(a: ScalarField) -> Seq<ScalarField> {
    seq![a.sneg(), ScalarField::sone()]
}

/// `prod_{j < i} (x - domain[j])`.
pub open spec fn svanishing_steps(domain: Seq<ScalarField>, i: nat) -> Seq<ScalarField>
    decreases i,
{
    if i == 0 {
        seq![ScalarField::sone()]
    } else {
        strim(sprod(svanishing_steps(domain, (i - 1) as nat), strim(slinear(domain[i - 1]))))
    }
}

/// The vanishing polynomial `prod_{a in domain} (x - a)`.
pub open spec fn svanishing(domain: Seq<ScalarField>) -> Seq<ScalarField> {
    svanishing_steps(domain, domain.len())
}

/// `x^n - 1` (the constant one for `n == 0`).
pub open spec fn ssubgroup_vanishing(n: nat) -> Seq<ScalarField> {
    if n == 0 {
        seq![ScalarField::sone()]
    } else {
        Seq::new(
            n + 1,
            |i: int|
                if i == 0 {
                    ScalarField::sone().sneg()
                } else if i == n {
                    ScalarField::sone()
                } else {
                    ScalarField::szero()
                },
        )
    }
}

pub proof fn lemma_sprod_len(a: Seq<ScalarField>, b: Seq<ScalarField>)
    ensures
        strim(sprod(a, b)).len() <= sprod(a, b).len(),
        a.len() > 0 && b.len() > 0 ==> sprod(a, b).len() == a.len() + b.len() - 1,
        a.len() == 0 || b.len() == 0 ==> sprod(a, b).len() == 0,
{
    lemma_strim(sprod(a, b));
}

proof fn lemma_linear_trimmed(a: ScalarField)
    ensures
        strim(slinear(a)) == slinear(a),
        slinear(a).len() == 2,
{
    assert(ScalarField::sone() != ScalarField::szero()) by {
        assert(ScalarField::sone().val() == 1);
    }
    lemma_strim(slinear(a));
}

proof fn lemma_svanishing_len(domain: Seq<ScalarField>, i: nat)
    ensures
        svanishing_steps(domain, i).len() <= i + 1,
    decreases i,
{
    if i == 0 {
    } else {
        lemma_svanishing_len(domain, (i - 1) as nat);
        lemma_linear_trimmed(domain[i - 1]);
        let p = svanishing_steps(domain, (i - 1) as nat);
        lemma_sprod_len(p, slinear(domain[i - 1]));
    }
}

proof fn lemma_sconv_zero_prefix(a: Seq<ScalarField>, b: Seq<ScalarField>, k: int, i: nat)
    requires
        i <= a.len(),
        i == 0 || k - (i - 1) >= b.len(),
    ensures
        sconv(a, b, k, i) == ScalarField::szero(),
    decreases i,
{
    if i > 0 {
        lemma_sconv_zero_prefix(a, b, k, (i - 1) as nat);
        ScalarField::lemma_val_eq(
            ScalarField::szero().sadd(ScalarField::szero()),
            ScalarField::szero(),
        );
    }
}

/// The product of two monic polynomials is monic.
proof fn lemma_sprod_monic(a: Seq<ScalarField>, b: Seq<ScalarField>)
    requires
        a.len() > 0,
        b.len() > 0,
        a.last() == ScalarField::sone(),
        b.last() == ScalarField::sone(),
    ensures
        strim(sprod(a, b)) == sprod(a, b),
        sprod(a, b).len() == a.len() + b.len() - 1,
        sprod(a, b).last() == ScalarField::sone(),
{
    let k = a.len() + b.len() - 2;
    lemma_sconv_zero_prefix(a, b, k, (a.len() - 1) as nat);
    assert(sprod(a, b).last() == sconv(a, b, k, a.len()));
    ScalarField::lemma_val_eq(
        ScalarField::szero().sadd(ScalarField::sone().smul(ScalarField::sone())),
        ScalarField::sone(),
    );
    assert(ScalarField::sone() != ScalarField::szero()) by {
        assert(ScalarField::sone().val() == 1);
    }
    lemma_strim(sprod(a, b));
}

/// The vanishing polynomial of `i` points is monic of length `i + 1`.
pub proof fn lemma_vanishing_monic(domain: Seq<ScalarField>, i: nat)
    ensures
        svanishing_steps(domain, i).len() == i + 1,
        svanishing_steps(domain, i).last() == ScalarField::sone(),
    decreases i,
{
    if i > 0 {
        lemma_vanishing_monic(domain, (i - 1) as nat);
        lemma_linear_trimmed(domain[i - 1]);
        lemma_sprod_monic(svanishing_steps(domain, (i - 1) as nat), slinear(domain[i - 1]));
    }
}

/// `prod_{j < i} (x - domain[j])`, in the field.
pub open spec fn sroots_prod(domain: Seq<ScalarField>, i: nat, x: ScalarField) -> ScalarField
    decreases i,
{
    if i == 0 {
        ScalarField::sone()
    } else {
        sroots_prod(domain, (i - 1) as nat, x).smul(x.ssub(domain[i - 1]))
    }
}

/// The vanishing polynomial evaluates to the product of `x - a` over its points.
pub proof fn lemma_vanishing_eval(domain: Seq<ScalarField>, i: nat, x: ScalarField)
    ensures
        seval(svanishing_steps(domain, i), x) == sroots_prod(domain, i, x),
    decreases i,
{
    if i == 0 {
        lemma_small_mod(1, R as nat);
        lemma_eval_constant(ScalarField::sone(), x);
    } else {
        lemma_vanishing_eval(domain, (i - 1) as nat, x);
        lemma_linear_trimmed(domain[i - 1]);
        lemma_eval_mul(svanishing_steps(domain, (i - 1) as nat), slinear(domain[i - 1]), x);
        lemma_eval_linear(domain[i - 1], x);
    }
}

/// The product of `x - a` over the first `i` points is zero exactly when `x` is one of them.
proof fn lemma_roots_prod_zero(domain: Seq<ScalarField>, i: nat, x: ScalarField)
    requires
        i <= domain.len(),
        x.canon(),
        forall|j: int| 0 <= j < domain.len() ==> #[trigger] domain[j].canon(),
    ensures
        (sroots_prod(domain, i, x).val() == 0) <==> (exists|j: int| 0 <= j < i && domain[j] == x),
    decreases i,
{
    let m = R as int;
    lemma_small_mod(0, R as nat);
    lemma_small_mod(1, R as nat);
    if i > 0 {
        let j = i - 1;
        lemma_roots_prod_zero(domain, j as nat, x);
        let p = sroots_prod(domain, j as nat, x);
        let d = x.ssub(domain[j]);
        let (pv, dv) = (p.val(), d.val());
        assert(domain[j].canon());
        lemma_small_mod(x.val(), R as nat);
        lemma_small_mod(domain[j].val(), R as nat);
        assert((dv == 0) <==> (domain[j] == x)) by {
            lemma_mod_equivalence(x.val() as int, domain[j].val() as int, m);
            if domain[j].val() == x.val() {
                ScalarField::lemma_val_eq(domain[j], x);
            }
        }
        lemma_small_mod(pv, R as nat);
        lemma_small_mod(dv, R as nat);
        if pv != 0 && dv != 0 {
            lemma_prime_17();
            lemma_no_zero_divisors(pv, dv, R as nat);
        } else {
            assert(pv * dv == 0) by (nonlinear_arith)
                requires
                    pv == 0 || dv == 0,
            ;
        }
        if exists|k: int| 0 <= k < i && domain[k] == x {
            let k = choose|k: int| 0 <= k < i && domain[k] == x;
            if k < j {
                assert(exists|k2: int| 0 <= k2 < j && domain[k2] == x);
            }
        }
    }
}

/// The vanishing polynomial of a domain is zero at a point exactly when the point is in
/// the domain.
pub proof fn lemma_vanishing_zero_iff(domain: Seq<ScalarField>, x: ScalarField)
    requires
        x.canon(),
        forall|j: int| 0 <= j < domain.len() ==> #[trigger] domain[j].canon(),
    ensures
        (seval(svanishing(domain), x) == ScalarField::szero()) <==> domain.contains(x),
{
    lemma_vanishing_eval(domain, domain.len(), x);
    lemma_roots_prod_zero(domain, domain.len(), x);
    lemma_small_mod(0, R as nat);
    if sroots_prod(domain, domain.len(), x).val() == 0 {
        ScalarField::lemma_val_eq(sroots_prod(domain, domain.len(), x), ScalarField::szero());
    }
    if domain.contains(x) {
        let j = choose|j: int| 0 <= j < domain.len() && domain[j] == x;
        assert(exists|k: int| 0 <= k < domain.len() && domain[k] == x);
    }
}

/// The vanishing polynomial `prod_{a in domain} (x - a)`.
pub fn vanishing_poly(domain: &[ScalarField]) -> (r: DensePolynomial)
    requires
        domain.len() + 3 <= usize::MAX,
    ensures
        r@ == svanishing(domain@),
{
    let mut poly = DensePolynomial::from_coefficients_vec(vec![ScalarField::one()]);
    proof {
        assert(ScalarField::sone() != ScalarField::szero()) by {
            assert(ScalarField::sone().val() == 1);
        }
        lemma_strim(seq![ScalarField::sone()]);
    }
    let mut i: usize = 0;
    while i < domain.len()
        invariant
            i <= domain.len(),
            domain.len() + 3 <= usize::MAX,
            poly@ == svanishing_steps(domain@, i as nat),
        decreases domain.len() - i,
    {
        let x = domain[i];
        let factor = DensePolynomial::from_coefficients_vec(vec![x.neg(), ScalarField::one()]);
        proof {
            lemma_linear_trimmed(x);
            lemma_svanishing_len(domain@, i as nat);
        }
        poly = poly.naive_mul(&factor);
        i = i + 1;
    }
    poly
}

/// `x^n - 1`, the vanishing polynomial of a multiplicative subgroup of order `n`.
pub fn subgroup_vanishing_poly(n: usize) -> (r: DensePolynomial)
    requires
        n < usize::MAX,
    ensures
        r@ == ssubgroup_vanishing(n as nat),
{
    proof {
        assert(ScalarField::sone() != ScalarField::szero()) by {
            assert(ScalarField::sone().val() == 1);
        }
        lemma_strim(ssubgroup_vanishing(n as nat));
    }
    if n == 0 {
        return DensePolynomial::from_coefficients_vec(vec![ScalarField::one()]);
    }
    let mut coeffs: Vec<ScalarField> = Vec::new();
    let mut i: usize = 0;
    while i < n + 1
        invariant
            n < usize::MAX,
            n > 0,
            i <= n + 1,
            coeffs@ =~= ssubgroup_vanishing(n as nat).subrange(0, i as int),
        decreases n + 1 - i,
    {
        if i == 0 {
            coeffs.push(ScalarField::one().neg());
        } else if i == n {
            coeffs.push(ScalarField::one());
        } else {
            coeffs.push(ScalarField::zero());
        }
        i = i + 1;
    }
    proof {
        assert(coeffs@ =~= ssubgroup_vanishing(n as nat));
    }
    DensePolynomial::from_coefficients_vec(coeffs)
}


/// The coefficients of `p(x) * (x + c)`.
pub open spec fn smul_linear(p: Seq<ScalarField>, c: ScalarField) -> Seq<ScalarField> {
    Seq::new(p.len() + 1, |a: int| coeff(p, a - 1).sadd(coeff(p, a).smul(c)))
}

/// `prod_{j' < j, j' != i} (x - domain[j'])`.
pub open spec fn slagrange_num(domain: Seq<ScalarField>, i: int, j: nat) -> Seq<ScalarField>
    decreases j,
{
    if j == 0 {
        seq![ScalarField::sone()]
    } else {
        let prev = slagrange_num(domain, i, (j - 1) as nat);
        if j - 1 == i {
            prev
        } else {
            smul_linear(prev, domain[j - 1].sneg())
        }
    }
}

/// `prod_{j' < j, j' != i} (domain[i] - domain[j'])`.
pub open spec fn slagrange_den(domain: Seq<ScalarField>, i: int, j: nat) -> ScalarField
    decreases j,
{
    if j == 0 {
        ScalarField::sone()
    } else {
        let prev = slagrange_den(domain, i, (j - 1) as nat);
        if j - 1 == i {
            prev
        } else {
            prev.smul(domain[i].ssub(domain[j - 1]))
        }
    }
}

/// `sum_{i' < i} values[i'] * L_{i'}(x)`, where `L_{i'}` is the Lagrange basis polynomial of
/// `domain[i']`, accumulated term by term.
pub open spec fn sinterp_acc(domain: Seq<ScalarField>, values: Seq<ScalarField>, i: nat) -> Seq<ScalarField>
    decreases i,
{
    if i == 0 {
        seq![ScalarField::szero()]
    } else {
        let prev = sinterp_acc(domain, values, (i - 1) as nat);
        let num = slagrange_num(domain, i - 1, domain.len());
        let scale = values[i - 1].smul(slagrange_den(domain, i - 1, domain.len()).sinv());
        Seq::new(
            if prev.len() >= num.len() {
                prev.len()
            } else {
                num.len()
            },
            |k: int|
                if k < num.len() {
                    coeff(prev, k).sadd(num[k].smul(scale))
                } else {
                    coeff(prev, k)
                },
        )
    }
}

/// The Lagrange interpolation polynomial through `(domain[i], values[i])`.
pub open spec fn sinterpolate(domain: Seq<ScalarField>, values: Seq<ScalarField>) -> Seq<ScalarField> {
    strim(sinterp_acc(domain, values, domain.len()))
}

/// `p(x) * (x + c)` evaluates to `p(y) * (y + c)`.
proof fn lemma_eval_mul_linear(p: Seq<ScalarField>, c: ScalarField, y: ScalarField)
    ensures
        seval(smul_linear(p, c), y) == seval(p, y).smul(y.sadd(c)),
{
    let m = R as int;
    let yv = y.val() as int;
    let cv = c.val() as int;
    let s = smul_linear(p, c);
    let n = s.len();
    let g = ishifted(p, 1);
    let h = |a: int| g(a) + cv * icoeffs(p)(a);
    assert forall|a: int| 0 <= a < 0 + n implies #[trigger] (icoeffs(s)(a) - h(a)) % m == 0 by {
        let u = coeff(p, a - 1).val() as int;
        let v = coeff(p, a).val() as int;
        assert(g(a) == u);
        assert(icoeffs(s)(a) == (u + (v * cv) % m) % m);
        lemma_add_mod_noop_right(u, v * cv, m);
        assert(v * cv == cv * v) by (nonlinear_arith);
        lemma_mod_equivalence(icoeffs(s)(a), h(a), m);
        lemma_mod_twice(u + v * cv, m);
    }
    lemma_hsum_congruent(icoeffs(s), h, 0, n, yv);
    lemma_hsum_linear(g, icoeffs(p), h, cv, 0, n, yv);
    lemma_hsum_shifted(p, 1, n, yv);
    assert forall|a: int| 0 + p.len() <= a < 0 + n implies #[trigger] icoeffs(p)(a) == 0 by {
    }
    lemma_hsum_zeros(icoeffs(p), 0, p.len(), n, yv);
    vstd::arithmetic::power::lemma_pow1(yv);
    lemma_seval_hsum(s, y, n);
    lemma_seval_hsum(p, y, p.len());
    let (is, ip) = (ival(s, yv), ival(p, yv));
    assert(hsum(h, 0, n, yv) == yv * ip + cv * ip);
    assert(yv * ip + cv * ip == ip * (yv + cv)) by (nonlinear_arith);
    lemma_mul_mod_noop(ip, yv + cv, m);
    lemma_mod_equivalence(is, ip * (yv + cv), m);
    ScalarField::lemma_val_eq(seval(s, y), seval(p, y).smul(y.sadd(c)));
}

/// `prod_{j' < j, j' != i} (x - domain[j'])`, in the field.
pub open spec fn sprod_except(domain: Seq<ScalarField>, i: int, j: nat, x: ScalarField) -> ScalarField
    decreases j,
{
    if j == 0 {
        ScalarField::sone()
    } else {
        let prev = sprod_except(domain, i, (j - 1) as nat, x);
        if j - 1 == i {
            prev
        } else {
            prev.smul(x.ssub(domain[j - 1]))
        }
    }
}

/// The Lagrange numerator evaluates to the product of `x - domain[j']` over `j' != i`, and
/// the denominator is that product at `domain[i]`.
proof fn lemma_lagrange_eval(domain: Seq<ScalarField>, i: int, j: nat, x: ScalarField)
    requires
        j <= domain.len(),
    ensures
        seval(slagrange_num(domain, i, j), x) == sprod_except(domain, i, j, x),
        slagrange_den(domain, i, j) == sprod_except(domain, i, j, domain[i]),
    decreases j,
{
    if j == 0 {
        lemma_small_mod(1, R as nat);
        lemma_eval_constant(ScalarField::sone(), x);
    } else {
        lemma_lagrange_eval(domain, i, (j - 1) as nat, x);
        if j - 1 != i {
            let d = domain[j - 1];
            let prev = slagrange_num(domain, i, (j - 1) as nat);
            lemma_eval_mul_linear(prev, d.sneg(), x);
            let m = R as int;
            lemma_add_mod_noop(x.val() as int, -(d.val() as int), m);
            lemma_mod_twice(-(d.val() as int), m);
            lemma_mod_twice(x.val() as int, m);
            lemma_add_mod_noop_right(x.val() as int, -(d.val() as int), m);
            ScalarField::lemma_val_eq(x.sadd(d.sneg()), x.ssub(d));
        }
    }
}

/// The product over `j' != i` vanishes at every other point of the domain, and not at
/// `domain[i]` when the points are distinct.
proof fn lemma_prod_except_zero(domain: Seq<ScalarField>, i: int, j: nat, k: int)
    requires
        j <= domain.len(),
        0 <= i < domain.len(),
        0 <= k < domain.len(),
        distinct(domain),
        forall|t: int| 0 <= t < domain.len() ==> #[trigger] domain[t].canon(),
    ensures
        k != i && k < j ==> sprod_except(domain, i, j, domain[k]).val() == 0,
        sprod_except(domain, i, j, domain[i]).val() % (R as nat) != 0,
    decreases j,
{
    let m = R as int;
    lemma_small_mod(0, R as nat);
    lemma_small_mod(1, R as nat);
    if j > 0 {
        lemma_prod_except_zero(domain, i, (j - 1) as nat, k);
        if j - 1 != i {
            let d = domain[j - 1];
            let pk = sprod_except(domain, i, (j - 1) as nat, domain[k]);
            let fk = domain[k].ssub(d);
            if k != i && k < j {
                if k == j - 1 {
                    assert(fk.val() == 0);
                }
                assert(pk.val() * fk.val() == 0) by (nonlinear_arith)
                    requires
                        pk.val() == 0 || fk.val() == 0,
                ;
            }
            let pi = sprod_except(domain, i, (j - 1) as nat, domain[i]);
            let fi = domain[i].ssub(d);
            assert(domain[i].canon() && d.canon());
            assert(fi.val() % (R as nat) != 0) by {
                lemma_small_mod(fi.val(), R as nat);
                lemma_small_mod(domain[i].val(), R as nat);
                lemma_small_mod(d.val(), R as nat);
                if fi.val() == 0 {
                    lemma_mod_equivalence(domain[i].val() as int, d.val() as int, m);
                    ScalarField::lemma_val_eq(domain[i], d);
                    if i < j - 1 {
                        assert(domain[i] != domain[j - 1]);
                    } else {
                        assert(domain[j - 1] != domain[i]);
                    }
                }
            }
            lemma_prime_17();
            lemma_no_zero_divisors(pi.val(), fi.val(), R as nat);
        }
    }
}

/// One step of the accumulation adds `scale * num(x)` to the value.
proof fn lemma_interp_acc_step(domain: Seq<ScalarField>, values: Seq<ScalarField>, i: nat, x: ScalarField)
    requires
        0 < i,
    ensures
        seval(sinterp_acc(domain, values, i), x) == seval(sinterp_acc(domain, values, (i - 1) as nat), x).sadd(
            values[i - 1].smul(slagrange_den(domain, i - 1, domain.len()).sinv()).smul(
                seval(slagrange_num(domain, i - 1, domain.len()), x),
            ),
        ),
{
    let m = R as int;
    let xv = x.val() as int;
    let prev = sinterp_acc(domain, values, (i - 1) as nat);
    let num = slagrange_num(domain, i - 1, domain.len());
    let scale = values[i - 1].smul(slagrange_den(domain, i - 1, domain.len()).sinv());
    let sv = scale.val() as int;
    let acc = sinterp_acc(domain, values, i);
    let n = acc.len();
    let h = |k: int| icoeffs(prev)(k) + sv * icoeffs(num)(k);
    assert forall|k: int| 0 <= k < 0 + n implies #[trigger] (icoeffs(acc)(k) - h(k)) % m == 0 by {
        let u = coeff(prev, k).val() as int;
        if k < num.len() {
            let v = num[k].val() as int;
            assert(icoeffs(acc)(k) == (u + (v * sv) % m) % m);
            lemma_add_mod_noop_right(u, v * sv, m);
            assert(v * sv == sv * v) by (nonlinear_arith);
            lemma_mod_equivalence(icoeffs(acc)(k), h(k), m);
            lemma_mod_twice(u + v * sv, m);
        } else {
            assert(icoeffs(num)(k) == 0);
            assert(sv * 0 == 0);
            lemma_mod_equivalence(icoeffs(acc)(k), h(k), m);
            lemma_small_mod(0, R as nat);
            lemma_mod_twice(u, m);
        }
    }
    lemma_hsum_congruent(icoeffs(acc), h, 0, n, xv);
    lemma_hsum_linear(icoeffs(prev), icoeffs(num), h, sv, 0, n, xv);
    lemma_seval_hsum(acc, x, n);
    lemma_seval_hsum(prev, x, n);
    lemma_seval_hsum(num, x, n);
    let (ia, ip, inn) = (hsum(icoeffs(acc), 0, n, xv), hsum(icoeffs(prev), 0, n, xv), hsum(icoeffs(num), 0, n, xv));
    lemma_mul_mod_noop(sv, inn, m);
    lemma_add_mod_noop(ip, sv * inn, m);
    lemma_mod_equivalence(ia, ip + sv * inn, m);
    lemma_small_mod(scale.val(), R as nat);
    lemma_mod_twice(sv * inn, m);
    lemma_add_mod_noop_right(ip % m, sv * inn, m);
    ScalarField::lemma_val_eq(
        seval(acc, x),
        seval(prev, x).sadd(scale.smul(seval(num, x))),
    );
}

/// The partial interpolation sums: at `domain[k]`, the first `i` terms give `values[k]` if
/// `k < i` and zero otherwise.
proof fn lemma_interp_partial(domain: Seq<ScalarField>, values: Seq<ScalarField>, i: nat, k: int)
    requires
        domain.len() == values.len(),
        distinct(domain),
        forall|t: int| 0 <= t < domain.len() ==> #[trigger] domain[t].canon(),
        forall|t: int| 0 <= t < values.len() ==> #[trigger] values[t].canon(),
        0 <= k < domain.len(),
        i <= domain.len(),
    ensures
        seval(sinterp_acc(domain, values, i), domain[k]) == if k < i {
            values[k]
        } else {
            ScalarField::szero()
        },
    decreases i,
{
    let m = R as int;
    let x = domain[k];
    let n = domain.len();
    lemma_small_mod(0, R as nat);
    lemma_small_mod(1, R as nat);
    if i == 0 {
        lemma_eval_constant(ScalarField::szero(), x);
    } else {
        let j = (i - 1) as int;
        lemma_interp_partial(domain, values, (i - 1) as nat, k);
        lemma_interp_acc_step(domain, values, i, x);
        lemma_lagrange_eval(domain, j, n, x);
        lemma_prod_except_zero(domain, j, n, k);
        let prev = seval(sinterp_acc(domain, values, (i - 1) as nat), x);
        let den = slagrange_den(domain, j, n);
        let scale = values[j].smul(den.sinv());
        let num = seval(slagrange_num(domain, j, n), x);
        lemma_seval_canon(sinterp_acc(domain, values, (i - 1) as nat), x);
        if k != j {
            assert(num.val() == 0);
            assert(scale.val() * num.val() == 0) by (nonlinear_arith)
                requires
                    num.val() == 0,
            ;
            lemma_small_mod(prev.val(), R as nat);
            ScalarField::lemma_val_eq(prev.sadd(scale.smul(num)), prev);
        } else {
            assert(num == den);
            ScalarField::lemma_inv_cancel(den);
            let (v, iv, d) = (values[j].val() as int, den.sinv().val() as int, den.val() as int);
            assert(den.smul(den.sinv()) == ScalarField::sone());
            assert(ScalarField::sone().val() == 1);
            assert(den.smul(den.sinv()).val() == (d * iv) % m);
            assert((d * iv) % m == 1);
            lemma_mul_mod_noop_left(v * iv, d, m);
            assert((v * iv) * d == v * (d * iv)) by (nonlinear_arith);
            lemma_mul_mod_noop_right(v, d * iv, m);
            assert(values[j].canon());
            lemma_small_mod(values[j].val(), R as nat);
            assert(scale.smul(num).val() == values[j].val());
            assert(prev.val() == 0);
            ScalarField::lemma_val_eq(prev.sadd(scale.smul(num)), values[j]);
        }
    }
}

/// Lagrange interpolation through distinct points takes the given value at each of them.
pub proof fn lemma_interpolate_eval(domain: Seq<ScalarField>, values: Seq<ScalarField>, k: int)
    requires
        domain.len() == values.len(),
        distinct(domain),
        forall|t: int| 0 <= t < domain.len() ==> #[trigger] domain[t].canon(),
        forall|t: int| 0 <= t < values.len() ==> #[trigger] values[t].canon(),
        0 <= k < domain.len(),
    ensures
        seval(sinterpolate(domain, values), domain[k]) == values[k],
{
    lemma_interp_partial(domain, values, domain.len(), k);
    lemma_seval_strim(sinterp_acc(domain, values, domain.len()), domain[k]);
}

/// The points are pairwise distinct.
pub open spec fn distinct(s: Seq<ScalarField>) -> bool {
    forall|i: int, j: int| 0 <= i < j < s.len() ==> s[i] != s[j]
}

fn get_coeff(p: &Vec<ScalarField>, a: usize) -> (r: ScalarField)
    ensures
        r == coeff(p@, a as int),
{
    if a < p.len() {
        p[a]
    } else {
        ScalarField::zero()
    }
}

/// `p(x) * (x + c)`.
fn mul_linear(p: &Vec<ScalarField>, c: ScalarField) -> (r: Vec<ScalarField>)
    requires
        p.len() < usize::MAX,
    ensures
        r@ == smul_linear(p@, c),
{
    let m = p.len();
    let mut out: Vec<ScalarField> = Vec::new();
    let mut a: usize = 0;
    while a < m + 1
        invariant
            m == p.len(),
            m < usize::MAX,
            a <= m + 1,
            out@ =~= smul_linear(p@, c).subrange(0, a as int),
        decreases m + 1 - a,
    {
        let hi = if a >= 1 {
            get_coeff(p, a - 1)
        } else {
            ScalarField::zero()
        };
        let lo = get_coeff(p, a).mul(&c);
        out.push(hi.add(&lo));
        a = a + 1;
    }
    proof {
        assert(out@ =~= smul_linear(p@, c));
    }
    out
}

proof fn lemma_lagrange_num_len(domain: Seq<ScalarField>, i: int, j: nat)
    ensures
        slagrange_num(domain, i, j).len() <= j + 1,
        slagrange_num(domain, i, j).len() >= 1,
        0 <= i < j ==> slagrange_num(domain, i, j).len() == j,
        !(0 <= i < j) ==> slagrange_num(domain, i, j).len() == j + 1,
    decreases j,
{
    if j > 0 {
        lemma_lagrange_num_len(domain, i, (j - 1) as nat);
    }
}

proof fn lemma_interp_acc_len_tight(domain: Seq<ScalarField>, values: Seq<ScalarField>, i: nat)
    requires
        domain.len() > 0,
        i <= domain.len(),
    ensures
        sinterp_acc(domain, values, i).len() <= domain.len(),
    decreases i,
{
    if i > 0 {
        lemma_interp_acc_len_tight(domain, values, (i - 1) as nat);
        lemma_lagrange_num_len(domain, i - 1, domain.len());
    }
}

/// The interpolation polynomial of `n` points has at most `n` coefficients.
pub proof fn lemma_interpolate_len(domain: Seq<ScalarField>, values: Seq<ScalarField>)
    ensures
        sinterpolate(domain, values).len() <= domain.len(),
{
    lemma_strim(sinterp_acc(domain, values, domain.len()));
    if domain.len() > 0 {
        lemma_interp_acc_len_tight(domain, values, domain.len());
    } else {
        assert(sinterp_acc(domain, values, 0) == seq![ScalarField::szero()]);
        assert(sinterp_acc(domain, values, 0).last() == ScalarField::szero());
        lemma_strim(sinterp_acc(domain, values, 0).drop_last());
    }
}

proof fn lemma_interp_acc_len(domain: Seq<ScalarField>, values: Seq<ScalarField>, i: nat)
    ensures
        1 <= sinterp_acc(domain, values, i).len() <= domain.len() + 1,
    decreases i,
{
    if i > 0 {
        lemma_interp_acc_len(domain, values, (i - 1) as nat);
        lemma_lagrange_num_len(domain, i - 1, domain.len());
    }
}

/// Lagrange interpolation through `(domain[i], values[i])`; the points must be distinct.
pub fn interpolate(domain: &[ScalarField], values: &[ScalarField]) -> (r: DensePolynomial)
    requires
        domain.len() == values.len(),
        distinct(domain@),
        domain.len() + 2 <= usize::MAX,
    ensures
        r@ == sinterpolate(domain@, values@),
{
    let n = domain.len();
    let mut acc: Vec<ScalarField> = Vec::new();
    acc.push(ScalarField::zero());
    let mut i: usize = 0;
    while i < n
        invariant
            n == domain.len(),
            n == values.len(),
            n + 2 <= usize::MAX,
            distinct(domain@),
            i <= n,
            acc@ == sinterp_acc(domain@, values@, i as nat),
        decreases n - i,
    {
        let mut num: Vec<ScalarField> = Vec::new();
        num.push(ScalarField::one());
        let mut den = ScalarField::one();
        let mut j: usize = 0;
        proof {
            assert(num@ =~= seq![ScalarField::sone()]);
        }
        while j < n
            invariant
                n == domain.len(),
                n + 2 <= usize::MAX,
                distinct(domain@),
                i < n,
                j <= n,
                num@ == slagrange_num(domain@, i as int, j as nat),
                den == slagrange_den(domain@, i as int, j as nat),
                den.val() != 0,
            decreases n - j,
        {
            proof {
                lemma_lagrange_num_len(domain@, i as int, j as nat);
            }
            if i != j {
                num = mul_linear(&num, domain[j].neg());
                let di = domain[i];
                let dj = domain[j];
                let diff = di.sub(&dj);
                proof {
                    use_type_invariant(&di);
                    use_type_invariant(&dj);
                    use_type_invariant(&den);
                    if i < j {
                        assert(domain@[i as int] != domain@[j as int]);
                    } else {
                        assert(domain@[j as int] != domain@[i as int]);
                    }
                    if domain@[i as int].val() == domain@[j as int].val() {
                        ScalarField::lemma_val_eq(domain@[i as int], domain@[j as int]);
                    }
                    assert(diff.val() != 0);
                    crate::arith::lemma_prime_17();
                    crate::arith::lemma_no_zero_divisors(den.val(), diff.val(), 17);
                }
                den = den.mul(&diff);
            }
            j = j + 1;
        }
        let scale = values[i].mul(&den.inverse().unwrap());
        proof {
            lemma_interp_acc_len(domain@, values@, i as nat);
            lemma_lagrange_num_len(domain@, i as int, n as nat);
        }
        let ghost prev = acc@;
        while acc.len() < num.len()
            invariant
                prev.len() <= acc.len() <= if prev.len() >= num.len() {
                    prev.len()
                } else {
                    num@.len()
                },
                forall|k: int| 0 <= k < acc.len() ==> #[trigger] acc@[k] == coeff(prev, k),
            decreases num.len() - acc.len(),
        {
            acc.push(ScalarField::zero());
        }
        let mut k: usize = 0;
        while k < num.len()
            invariant
                k <= num.len(),
                num.len() <= acc.len(),
                acc.len() == if prev.len() >= num.len() {
                    prev.len()
                } else {
                    num@.len()
                },
                forall|t: int|
                    0 <= t < acc.len() ==> #[trigger] acc@[t] == if t < k {
                        coeff(prev, t).sadd(num@[t].smul(scale))
                    } else {
                        coeff(prev, t)
                    },
            decreases num.len() - k,
        {
            let t = acc[k].add(&num[k].mul(&scale));
            acc.set(k, t);
            k = k + 1;
        }
        proof {
            assert(acc@ =~= sinterp_acc(domain@, values@, (i + 1) as nat));
        }
        i = i + 1;
    }
    DensePolynomial::from_coefficients_vec(acc)
}

/// The coefficients of `p(omega * x)`.
pub fn shift_by_omega(poly: &DensePolynomial, omega: ScalarField) -> (r: DensePolynomial)
    ensures
        r@ == strim(sshift(poly@, omega)),
{
    let coeffs = poly.coeffs();
    let mut out: Vec<ScalarField> = Vec::new();
    let mut pow = ScalarField::one();
    let mut i: usize = 0;
    while i < coeffs.len()
        invariant
            i <= coeffs.len(),
            coeffs@ == poly@,
            pow == fpow(omega, i as nat),
            out@ =~= sshift(poly@, omega).subrange(0, i as int),
        decreases coeffs.len() - i,
    {
        out.push(coeffs[i].mul(&pow));
        pow = pow.mul(&omega);
        i = i + 1;
    }
    proof {
        assert(out@ =~= sshift(poly@, omega));
    }
    DensePolynomial::from_coefficients_vec(out)
}

/// The product `a * b`.
fn mul_poly(a: &DensePolynomial, b: &DensePolynomial) -> (r: DensePolynomial)
    requires
        a@.len() + b@.len() <= usize::MAX,
    ensures
        r@ == strim(sprod(a@, b@)),
{
    a.naive_mul(b)
}

/// The difference `a - b`.
fn sub_poly(a: &DensePolynomial, b: &DensePolynomial) -> (r: DensePolynomial)
    ensures
        r@ == strim(ssub_coeffs(a@, b@)),
{
    a.sub(b)
}


/// The KZG check of an opening passes.
pub open spec fn skzg_ok(srs: SRS, c: G1Point, z: ScalarField, v: ScalarField, pi: G1Point) -> bool {
    sverify_sides(srs, c, z, v, pi).0 == sverify_sides(srs, c, z, v, pi).1
}

/// Every honest KZG opening over `srs` verifies: for a polynomial that fits the reference
/// string and a canonical point `z`, its commitment, the value `f(z)` and the opening proof
/// pass the pairing check, and every pairing that the check computes is defined.  This
/// holds over the reference string of every `setup` (`lemma_kzg_complete`).
pub open spec fn kzg_complete(srs: SRS) -> bool {
    forall|f: Seq<ScalarField>, z: ScalarField|
        f.len() <= srs.g1_powers@.len() && z.canon() ==> #[trigger] skzg_ok(
            srs,
            scommit(srs.g1_powers@, f),
            z,
            seval(f, z),
            sopen_proof(srs.g1_powers@, f, z),
        ) && sverify_defined(
            srs,
            scommit(srs.g1_powers@, f),
            z,
            seval(f, z),
            sopen_proof(srs.g1_powers@, f, z),
        )
}

#[derive(Debug, Clone, Copy)]
pub struct ZeroTestProof {
    pub f_commit: G1Point,
    pub q_commit: G1Point,
    pub r: ScalarField,
    pub f_eval: ScalarField,
    pub q_eval: ScalarField,
    pub f_proof: G1Point,
    pub q_proof: G1Point,
}

pub struct ZeroTest;

impl ZeroTest {
    /// The proof that `prove` builds: commitments to `f` and to `q = f / Z_domain`, and
    /// their openings at `r`.
    pub open spec fn sprove(
        srs: SRS,
        f: Seq<ScalarField>,
        domain: Seq<ScalarField>,
        r: ScalarField,
    ) -> ZeroTestProof {
        let powers = srs.g1_powers@;
        let q = sdivide(f, svanishing(domain)).0;
        ZeroTestProof {
            f_commit: scommit(powers, f),
            q_commit: scommit(powers, q),
            r,
            f_eval: seval(f, r),
            q_eval: seval(q, r),
            f_proof: sopen_proof(powers, f, r),
            q_proof: sopen_proof(powers, q, r),
        }
    }

    /// For `f` zero on a domain of distinct points, the honest proof passes the test's
    /// equation at every challenge `r`: `f(r) == q(r) * Z_domain(r)` with `q = f / Z_domain`.
    pub proof fn lemma_honest_equation(srs: SRS, f: Seq<ScalarField>, domain: Seq<ScalarField>, r: ScalarField)
        requires
            distinct(domain),
            forall|i: int| 0 <= i < domain.len() ==> #[trigger] domain[i].canon(),
            forall|i: int| 0 <= i < domain.len() ==> #[trigger] seval(f, domain[i]) == ScalarField::szero(),
        ensures
            ({
                let p = ZeroTest::sprove(srs, f, domain, r);
                p.f_eval == p.q_eval.smul(seval(svanishing(domain), p.r))
            }),
    {
        let z = svanishing(domain);
        let (q, rem) = sdivide(f, z);
        lemma_vanishing_monic(domain, domain.len());
        lemma_small_mod(0, R as nat);
        lemma_small_mod(1, R as nat);
        assert(z.last().val() % (R as nat) != 0);
        lemma_divide(f, z, r);
        assert forall|i: int| 0 <= i < domain.len() implies #[trigger] seval(rem, domain[i]) == ScalarField::szero() by {
            let y = domain[i];
            lemma_divide(f, z, y);
            lemma_vanishing_zero_iff(domain, y);
            assert(domain.contains(y));
            let u = seval(q, y);
            assert(u.val() * ScalarField::szero().val() == 0) by (nonlinear_arith)
                requires
                    ScalarField::szero().val() == 0,
            ;
            lemma_seval_canon(rem, y);
            lemma_small_mod(seval(rem, y).val(), R as nat);
            ScalarField::lemma_val_eq(seval(rem, y), ScalarField::szero());
        }
        lemma_root_count(rem, domain, r);
        let t = seval(q, r).smul(seval(z, r));
        lemma_small_mod(t.val(), R as nat);
        ScalarField::lemma_val_eq(seval(f, r), t);
    }

    /// Where `f(x) == q(x) Z_domain(x)` for `q = f / Z_domain`, the remainder of the division
    /// is zero at `x`.
    proof fn lemma_remainder_zero_at(f: Seq<ScalarField>, domain: Seq<ScalarField>, x: ScalarField)
        requires
            seval(f, x) == seval(sdivide(f, svanishing(domain)).0, x).smul(seval(svanishing(domain), x)),
        ensures
            seval(sdivide(f, svanishing(domain)).1, x) == ScalarField::szero(),
            sdivide(f, svanishing(domain)).1.len() <= domain.len(),
    {
        let z = svanishing(domain);
        let (q, rem) = sdivide(f, z);
        lemma_vanishing_monic(domain, domain.len());
        lemma_small_mod(0, R as nat);
        lemma_small_mod(1, R as nat);
        lemma_divide(f, z, x);
        let a = seval(q, x).smul(seval(z, x));
        let b = seval(rem, x);
        lemma_seval_canon(rem, x);
        lemma_seval_canon(f, x);
        assert(a.val() < R && b.val() < R);
        assert((a.val() + b.val()) % (R as nat) == a.val());
        assert(b.val() == 0);
        ScalarField::lemma_val_eq(b, ScalarField::szero());
    }

    /// A proof that `verify` accepts satisfies the test's equation: its claimed `f(r)` is its
    /// claimed `q(r)` times the vanishing polynomial of the domain at `r`.
    pub proof fn lemma_accepted_equation(srs: SRS, domain: Seq<ScalarField>, proof: ZeroTestProof)
        requires
            ZeroTest::sverify(srs, domain, proof),
        ensures
            proof.f_eval == proof.q_eval.smul(seval(svanishing(domain), proof.r)),
    {
    }

    /// Soundness of the zero test: where `f` is not zero at some point of a domain of distinct
    /// points, the honest proof that `f` vanishes there is accepted at fewer challenges than
    /// the domain has points: every list of distinct challenges at which `verify` accepts it
    /// is shorter than the domain.
    pub proof fn lemma_sound(
        srs: SRS,
        f: Seq<ScalarField>,
        domain: Seq<ScalarField>,
        i: int,
        pts: Seq<ScalarField>,
    )
        requires
            distinct(domain),
            forall|j: int| 0 <= j < domain.len() ==> #[trigger] domain[j].canon(),
            0 <= i < domain.len(),
            seval(f, domain[i]) != ScalarField::szero(),
            distinct(pts),
            forall|k: int| 0 <= k < pts.len() ==> #[trigger] pts[k].canon(),
            forall|k: int| 0 <= k < pts.len() ==> #[trigger] ZeroTest::sverify(srs, domain, ZeroTest::sprove(srs, f, domain, pts[k])),
        ensures
            pts.len() < domain.len(),
    {
        let z = svanishing(domain);
        let (q, rem) = sdivide(f, z);
        assert forall|k: int| 0 <= k < pts.len() implies #[trigger] seval(rem, pts[k]) == ScalarField::szero() by {
            let p = ZeroTest::sprove(srs, f, domain, pts[k]);
            assert(ZeroTest::sverify(srs, domain, p));
            Self::lemma_remainder_zero_at(f, domain, pts[k]);
        }
        if pts.len() >= domain.len() {
            let y = domain[i];
            lemma_vanishing_monic(domain, domain.len());
            lemma_small_mod(0, R as nat);
            lemma_small_mod(1, R as nat);
            lemma_divide(f, z, y);
            lemma_root_count(rem, pts, y);
            lemma_vanishing_zero_iff(domain, y);
            assert(domain.contains(y));
            let u = seval(q, y);
            assert(u.val() * ScalarField::szero().val() == 0) by (nonlinear_arith)
                requires
                    ScalarField::szero().val() == 0,
            ;
            assert(u.smul(seval(z, y)) == ScalarField::szero());
            assert(ScalarField::szero().sadd(ScalarField::szero()) == ScalarField::szero());
            assert(false);
        }
    }

    /// Completeness of the zero test: over the reference string of `setup(max_degree, tau)`,
    /// the honest proof that a polynomial `f` that fits the string vanishes on a domain of
    /// distinct points can be verified (every pairing that `verify` computes is defined) and
    /// is accepted, at every canonical challenge `r`.
    pub proof fn lemma_complete(
        srs: SRS,
        max_degree: nat,
        tau: ScalarField,
        f: Seq<ScalarField>,
        domain: Seq<ScalarField>,
        r: ScalarField,
    )
        requires
            is_setup_srs(srs, max_degree, tau),
            f.len() <= srs.g1_powers@.len(),
            r.canon(),
            distinct(domain),
            forall|i: int| 0 <= i < domain.len() ==> #[trigger] domain[i].canon(),
            forall|i: int| 0 <= i < domain.len() ==> #[trigger] seval(f, domain[i]) == ScalarField::szero(),
        ensures
            ZeroTest::verify_defined(srs, ZeroTest::sprove(srs, f, domain, r)),
            ZeroTest::sverify(srs, domain, ZeroTest::sprove(srs, f, domain, r)),
    {
        lemma_kzg_complete(srs, max_degree, tau);
        ZeroTest::lemma_complete_given_kzg(srs, f, domain, r);
    }

    /// The zero test is complete over every reference string on which honest KZG openings
    /// verify.
    pub(crate) proof fn lemma_complete_given_kzg(srs: SRS, f: Seq<ScalarField>, domain: Seq<ScalarField>, r: ScalarField)
        requires
            kzg_complete(srs),
            f.len() <= srs.g1_powers@.len(),
            r.canon(),
            distinct(domain),
            forall|i: int| 0 <= i < domain.len() ==> #[trigger] domain[i].canon(),
            forall|i: int| 0 <= i < domain.len() ==> #[trigger] seval(f, domain[i]) == ScalarField::szero(),
        ensures
            ZeroTest::verify_defined(srs, ZeroTest::sprove(srs, f, domain, r)),
            ZeroTest::sverify(srs, domain, ZeroTest::sprove(srs, f, domain, r)),
    {
        let powers = srs.g1_powers@;
        ZeroTest::lemma_honest_equation(srs, f, domain, r);
        lemma_vanishing_monic(domain, domain.len());
        lemma_sdivide_len(f, svanishing(domain));
        let q = sdivide(f, svanishing(domain)).0;
        assert(skzg_ok(srs, scommit(powers, f), r, seval(f, r), sopen_proof(powers, f, r)));
        assert(skzg_ok(srs, scommit(powers, q), r, seval(q, r), sopen_proof(powers, q, r)));
    }

    /// Both openings check, and `f(r) == q(r) * Z_domain(r)`.
    pub open spec fn sverify(srs: SRS, domain: Seq<ScalarField>, proof: ZeroTestProof) -> bool {
        &&& skzg_ok(srs, proof.f_commit, proof.r, proof.f_eval, proof.f_proof)
        &&& skzg_ok(srs, proof.q_commit, proof.r, proof.q_eval, proof.q_proof)
        &&& proof.f_eval == proof.q_eval.smul(seval(svanishing(domain), proof.r))
    }

    /// The pairings that `verify` computes are defined (the second only where the first
    /// check passes).
    pub open spec fn verify_defined(srs: SRS, proof: ZeroTestProof) -> bool {
        &&& sverify_defined(srs, proof.f_commit, proof.r, proof.f_eval, proof.f_proof)
        &&& (skzg_ok(srs, proof.f_commit, proof.r, proof.f_eval, proof.f_proof) ==> sverify_defined(
            srs,
            proof.q_commit,
            proof.r,
            proof.q_eval,
            proof.q_proof,
        ))
    }

    /// Prove that `f(x) = 0` for all `x` in `domain`.
    pub fn prove(
        kzg: &KZG10,
        f: &DensePolynomial,
        domain: &[ScalarField],
        r: ScalarField,
    ) -> (proof: ZeroTestProof)
        requires
            f@.len() <= kzg.srs.g1_powers@.len(),
            domain.len() + 3 <= usize::MAX,
        ensures
            proof == ZeroTest::sprove(kzg.srs, f@, domain@, r),
    {
        let z = vanishing_poly(domain);
        proof {
            lemma_vanishing_monic(domain@, domain@.len());
            lemma_sdivide_len(f@, z@);
        }
        let (q, _rem) = f.divide_with_q_and_r(&z);

        let f_commit = kzg.commit(f);
        let q_commit = kzg.commit(&q);

        let (f_eval, f_proof) = kzg.open(f, r);
        let (q_eval, q_proof) = kzg.open(&q, r);

        ZeroTestProof { f_commit, q_commit, r, f_eval, q_eval, f_proof, q_proof }
    }

    pub fn verify(kzg: &KZG10, domain: &[ScalarField], proof: &ZeroTestProof) -> (ok: bool)
        requires
            domain.len() + 3 <= usize::MAX,
            ZeroTest::verify_defined(kzg.srs, *proof),
        ensures
            ok == ZeroTest::sverify(kzg.srs, domain@, *proof),
            ok ==> proof.f_eval == proof.q_eval.smul(seval(svanishing(domain@), proof.r)),
    {
        let z = vanishing_poly(domain);
        let z_r = z.evaluate(&proof.r);
        if !kzg.verify(&proof.f_commit, proof.r, proof.f_eval, &proof.f_proof) {
            return false;
        }
        if !kzg.verify(&proof.q_commit, proof.r, proof.q_eval, &proof.q_proof) {
            return false;
        }
        proof.f_eval == proof.q_eval.mul(&z_r)
    }
}


/// The values of `f` on `domain`.
pub open spec fn seval_all(f: Seq<ScalarField>, domain: Seq<ScalarField>) -> Seq<ScalarField> {
    Seq::new(domain.len(), |i: int| seval(f, domain[i]))
}

/// `v[0] * v[1] * ... * v[i]`.
pub open spec fn sprefix_prod(v: Seq<ScalarField>, i: nat) -> ScalarField
    decreases i,
{
    if i == 0 {
        v[0]
    } else {
        sprefix_prod(v, (i - 1) as nat).smul(v[i as int])
    }
}

/// The running products of `v`.
pub open spec fn sprefix_products(v: Seq<ScalarField>) -> Seq<ScalarField> {
    Seq::new(v.len(), |i: int| sprefix_prod(v, i as nat))
}

#[derive(Debug, Clone, Copy)]
pub struct ProductCheckProof {
    pub f_commit: G1Point,
    pub t_commit: G1Point,
    pub q_commit: G1Point,
    pub last_eval: ScalarField,
    pub last_proof: G1Point,
    pub last_point: ScalarField,
    pub r: ScalarField,
    pub t_eval_r: ScalarField,
    pub t_proof_r: G1Point,
    pub t_eval_wr: ScalarField,
    pub t_proof_wr: G1Point,
    pub f_eval_wr: ScalarField,
    pub f_proof_wr: G1Point,
    pub q_eval_r: ScalarField,
    pub q_proof_r: G1Point,
    pub omega: ScalarField,
}

pub struct ProductCheck;

impl ProductCheck {
    /// `t`: the interpolation of the running products of `f` over `domain`.
    pub open spec fn st(f: Seq<ScalarField>, domain: Seq<ScalarField>) -> Seq<ScalarField> {
        sinterpolate(domain, sprefix_products(seval_all(f, domain)))
    }

    /// The generator `domain[1] / domain[0]` of the subgroup (one for a single point).
    pub open spec fn somega(domain: Seq<ScalarField>) -> ScalarField {
        if domain.len() > 1 {
            domain[1].smul(domain[0].sinv())
        } else {
            ScalarField::sone()
        }
    }

    /// `h(x) = t(omega x) - t(x) f(omega x)`.
    pub open spec fn sh(f: Seq<ScalarField>, domain: Seq<ScalarField>) -> Seq<ScalarField> {
        let t = ProductCheck::st(f, domain);
        let omega = ProductCheck::somega(domain);
        strim(ssub_coeffs(strim(sshift(t, omega)), strim(sprod(t, strim(sshift(f, omega))))))
    }

    /// `q = h / (x^n - 1)`.
    pub open spec fn sq(f: Seq<ScalarField>, domain: Seq<ScalarField>) -> Seq<ScalarField> {
        sdivide(ProductCheck::sh(f, domain), ssubgroup_vanishing(domain.len())).0
    }

    /// The proof that `prove` builds.
    pub open spec fn sprove(
        srs: SRS,
        f: Seq<ScalarField>,
        domain: Seq<ScalarField>,
        r: ScalarField,
    ) -> ProductCheckProof {
        let powers = srs.g1_powers@;
        let t = ProductCheck::st(f, domain);
        let q = ProductCheck::sq(f, domain);
        let omega = ProductCheck::somega(domain);
        let last_point = domain[domain.len() - 1];
        let wr = r.smul(omega);
        ProductCheckProof {
            f_commit: scommit(powers, f),
            t_commit: scommit(powers, t),
            q_commit: scommit(powers, q),
            last_eval: seval(t, last_point),
            last_proof: sopen_proof(powers, t, last_point),
            last_point,
            r,
            t_eval_r: seval(t, r),
            t_proof_r: sopen_proof(powers, t, r),
            t_eval_wr: seval(t, wr),
            t_proof_wr: sopen_proof(powers, t, wr),
            f_eval_wr: seval(f, wr),
            f_proof_wr: sopen_proof(powers, f, wr),
            q_eval_r: seval(q, r),
            q_proof_r: sopen_proof(powers, q, r),
            omega,
        }
    }

    /// The inputs on which `prove` runs: a non-empty domain of distinct points whose first
    /// point is invertible when there are two or more, and an SRS long enough for `f` and `t`.
    pub open spec fn prove_defined(srs: SRS, f: Seq<ScalarField>, domain: Seq<ScalarField>) -> bool {
        &&& domain.len() > 0
        &&& domain.len() > 1 ==> domain[0].val() != 0
        &&& distinct(domain)
        &&& f.len() <= srs.g1_powers@.len()
        &&& ProductCheck::st(f, domain).len() <= srs.g1_powers@.len()
        &&& domain.len() + f.len() + 3 <= usize::MAX
    }

    proof fn lemma_fpow_canon(w: ScalarField, k: nat)
        ensures
            fpow(w, k).canon(),
    {
    }

    proof fn lemma_prefix_canon(v: Seq<ScalarField>, i: nat)
        requires
            v.len() > 0,
            v[0].canon(),
        ensures
            sprefix_prod(v, i).canon(),
    {
    }

    /// `h(x) = t(w x) - t(x) f(w x)`.
    proof fn lemma_h_eval(f: Seq<ScalarField>, domain: Seq<ScalarField>, x: ScalarField)
        ensures
            ({
                let t = ProductCheck::st(f, domain);
                let w = ProductCheck::somega(domain);
                seval(ProductCheck::sh(f, domain), x) == seval(t, w.smul(x)).ssub(
                    seval(t, x).smul(seval(f, w.smul(x))),
                )
            }),
    {
        let t = ProductCheck::st(f, domain);
        let w = ProductCheck::somega(domain);
        let ts = strim(sshift(t, w));
        let fs = strim(sshift(f, w));
        let tf = strim(sprod(t, fs));
        lemma_eval_sub(ts, tf, x);
        lemma_seval_strim(sshift(t, w), x);
        lemma_eval_shift(t, w, x);
        lemma_eval_mul(t, fs, x);
        lemma_seval_strim(sshift(f, w), x);
        lemma_eval_shift(f, w, x);
    }

    /// `h` vanishes on the subgroup when the values of `f` there multiply to one.
    proof fn lemma_h_vanishes(f: Seq<ScalarField>, n: nat, omega: ScalarField, k: nat)
        requires
            n > 0,
            k < n,
            omega.canon(),
            fpow(omega, n) == ScalarField::sone(),
            ProductCheck::somega(smult_domain(n, omega)) == omega,
            distinct(smult_domain(n, omega)),
            sprefix_prod(seval_all(f, smult_domain(n, omega)), (n - 1) as nat) == ScalarField::sone(),
        ensures
            seval(ProductCheck::sh(f, smult_domain(n, omega)), fpow(omega, k)) == ScalarField::szero(),
    {
        let domain = smult_domain(n, omega);
        let v = seval_all(f, domain);
        let pp = sprefix_products(v);
        let t = ProductCheck::st(f, domain);
        let x = fpow(omega, k);
        Self::lemma_h_eval(f, domain, x);
        lemma_seval_canon(f, domain[0]);
        assert forall|i: int| 0 <= i < domain.len() implies #[trigger] domain[i].canon() by {
            Self::lemma_fpow_canon(omega, i as nat);
        }
        assert forall|i: int| 0 <= i < pp.len() implies #[trigger] pp[i].canon() by {
            Self::lemma_prefix_canon(v, i as nat);
        }
        ScalarField::lemma_mul_comm_one(omega, x);
        // w * w^k is the next point, or the first one after the last.
        let k2: nat = if k + 1 < n { k + 1 } else { 0 };
        assert(omega.smul(x) == domain[k2 as int]) by {
            if k + 1 == n {
                assert(fpow(omega, n) == x.smul(omega));
            }
        }
        lemma_interpolate_eval(domain, pp, k as int);
        lemma_interpolate_eval(domain, pp, k2 as int);
        let a = pp[k2 as int];
        let b = pp[k as int].smul(v[k2 as int]);
        assert(a == b) by {
            if k + 1 < n {
                assert(pp[k2 as int] == sprefix_prod(v, k + 1));
            } else {
                lemma_seval_canon(f, domain[0]);
                ScalarField::lemma_mul_comm_one(v[0], v[0]);
                assert(pp[k as int] == ScalarField::sone());
            }
        }
        lemma_small_mod(0, R as nat);
        ScalarField::lemma_val_eq(a.ssub(b), ScalarField::szero());
    }

    /// On the subgroup `1, w, ..., w^(n - 1)` of order `n`, for `f` whose values there multiply
    /// to one, the honest proof passes both equations of the test at every challenge `r`:
    /// `t(w^(n - 1)) == 1` and `t(w r) - t(r) f(w r) == q(r) (r^n - 1)`.
    pub proof fn lemma_honest_equations(srs: SRS, f: Seq<ScalarField>, n: nat, omega: ScalarField, r: ScalarField)
        requires
            n > 0,
            omega.canon(),
            fpow(omega, n) == ScalarField::sone(),
            distinct(smult_domain(n, omega)),
            sprefix_prod(seval_all(f, smult_domain(n, omega)), (n - 1) as nat) == ScalarField::sone(),
        ensures
            ({
                let p = ProductCheck::sprove(srs, f, smult_domain(n, omega), r);
                &&& p.last_eval == ScalarField::sone()
                &&& p.t_eval_wr.ssub(p.t_eval_r.smul(p.f_eval_wr)) == p.q_eval_r.smul(
                    seval(ssubgroup_vanishing(n), p.r),
                )
            }),
    {
        let domain = smult_domain(n, omega);
        let v = seval_all(f, domain);
        let pp = sprefix_products(v);
        let t = ProductCheck::st(f, domain);
        let h = ProductCheck::sh(f, domain);
        let zs = ssubgroup_vanishing(n);
        lemma_small_mod(0, R as nat);
        lemma_small_mod(1, R as nat);
        // The subgroup's generator is recovered from its first two points.
        assert(ProductCheck::somega(domain) == omega) by {
            ScalarField::lemma_mul_comm_one(omega, omega);
            assert(fpow(omega, 1) == ScalarField::sone().smul(omega));
            if n > 1 {
                ScalarField::lemma_inv_cancel(ScalarField::sone());
                let i1 = ScalarField::sone().sinv();
                ScalarField::lemma_mul_comm_one(i1, i1);
                assert(i1.val() == 1);
                ScalarField::lemma_val_eq(i1, ScalarField::sone());
            } else {
                assert(omega == ScalarField::sone());
            }
        }
        // The last running product is one.
        assert forall|i: int| 0 <= i < domain.len() implies #[trigger] domain[i].canon() by {
            Self::lemma_fpow_canon(omega, i as nat);
        }
        lemma_seval_canon(f, domain[0]);
        assert forall|i: int| 0 <= i < pp.len() implies #[trigger] pp[i].canon() by {
            Self::lemma_prefix_canon(v, i as nat);
        }
        lemma_interpolate_eval(domain, pp, n - 1);
        // h vanishes on the subgroup, so the remainder of h by x^n - 1 is zero everywhere.
        let (q, rem) = sdivide(h, zs);
        assert(zs.last() == ScalarField::sone());
        lemma_divide(h, zs, r);
        assert forall|i: int| 0 <= i < domain.len() implies #[trigger] seval(rem, domain[i]) == ScalarField::szero() by {
            let y = domain[i];
            Self::lemma_h_vanishes(f, n, omega, i as nat);
            lemma_subgroup_vanishing_root(n, omega, i as nat);
            lemma_divide(h, zs, y);
            let u = seval(q, y);
            assert(u.val() * ScalarField::szero().val() == 0) by (nonlinear_arith)
                requires
                    ScalarField::szero().val() == 0,
            ;
            lemma_seval_canon(rem, y);
            lemma_small_mod(seval(rem, y).val(), R as nat);
            ScalarField::lemma_val_eq(seval(rem, y), ScalarField::szero());
        }
        lemma_root_count(rem, domain, r);
        let tq = seval(q, r).smul(seval(zs, r));
        lemma_small_mod(tq.val(), R as nat);
        ScalarField::lemma_val_eq(seval(h, r), tq);
        // The verifier's expression is h(r).
        Self::lemma_h_eval(f, domain, r);
        ScalarField::lemma_mul_comm_one(r, omega);
    }

    /// The proof that `prove` builds is rejected, whatever the challenge and the verifier's
    /// reference string, when the values of `f` on a domain of distinct points do not
    /// multiply to one: the opened last running product is their product.
    pub proof fn lemma_rejects_wrong_product(
        srs: SRS,
        verifier_srs: SRS,
        f: Seq<ScalarField>,
        domain: Seq<ScalarField>,
        r: ScalarField,
    )
        requires
            domain.len() > 0,
            distinct(domain),
            forall|i: int| 0 <= i < domain.len() ==> #[trigger] domain[i].canon(),
            sprefix_prod(seval_all(f, domain), (domain.len() - 1) as nat) != ScalarField::sone(),
        ensures
            ProductCheck::sprove(srs, f, domain, r).last_eval == sprefix_prod(
                seval_all(f, domain),
                (domain.len() - 1) as nat,
            ),
            !ProductCheck::sverify(verifier_srs, domain, ProductCheck::sprove(srs, f, domain, r)),
    {
        let n = domain.len();
        let v = seval_all(f, domain);
        let pp = sprefix_products(v);
        lemma_seval_canon(f, domain[0]);
        assert forall|i: int| 0 <= i < pp.len() implies #[trigger] pp[i].canon() by {
            Self::lemma_prefix_canon(v, i as nat);
        }
        lemma_interpolate_eval(domain, pp, n - 1);
    }

    /// Completeness of the product check: over the reference string of
    /// `setup(max_degree, tau)`, the honest proof that the values of `f` on the subgroup of
    /// distinct powers of `omega` multiply to one can be verified and is accepted, at every
    /// canonical challenge `r`.
    pub proof fn lemma_complete(
        srs: SRS,
        max_degree: nat,
        tau: ScalarField,
        f: Seq<ScalarField>,
        n: nat,
        omega: ScalarField,
        r: ScalarField,
    )
        requires
            is_setup_srs(srs, max_degree, tau),
            ProductCheck::prove_defined(srs, f, smult_domain(n, omega)),
            r.canon(),
            n > 0,
            omega.canon(),
            fpow(omega, n) == ScalarField::sone(),
            distinct(smult_domain(n, omega)),
            sprefix_prod(seval_all(f, smult_domain(n, omega)), (n - 1) as nat) == ScalarField::sone(),
        ensures
            ProductCheck::verify_defined(srs, ProductCheck::sprove(srs, f, smult_domain(n, omega), r)),
            ProductCheck::sverify(srs, smult_domain(n, omega), ProductCheck::sprove(srs, f, smult_domain(n, omega), r)),
    {
        lemma_kzg_complete(srs, max_degree, tau);
        ProductCheck::lemma_complete_given_kzg(srs, f, n, omega, r);
    }

    /// The product check is complete over every reference string on which honest KZG
    /// openings verify.
    pub(crate) proof fn lemma_complete_given_kzg(
        srs: SRS,
        f: Seq<ScalarField>,
        n: nat,
        omega: ScalarField,
        r: ScalarField,
    )
        requires
            kzg_complete(srs),
            ProductCheck::prove_defined(srs, f, smult_domain(n, omega)),
            r.canon(),
            n > 0,
            omega.canon(),
            fpow(omega, n) == ScalarField::sone(),
            distinct(smult_domain(n, omega)),
            sprefix_prod(seval_all(f, smult_domain(n, omega)), (n - 1) as nat) == ScalarField::sone(),
        ensures
            ProductCheck::verify_defined(srs, ProductCheck::sprove(srs, f, smult_domain(n, omega), r)),
            ProductCheck::sverify(srs, smult_domain(n, omega), ProductCheck::sprove(srs, f, smult_domain(n, omega), r)),
    {
        let domain = smult_domain(n, omega);
        let powers = srs.g1_powers@;
        ProductCheck::lemma_honest_equations(srs, f, n, omega, r);
        ProductCheck::lemma_q_len(f, domain);
        let t = ProductCheck::st(f, domain);
        let q = ProductCheck::sq(f, domain);
        let last_point = domain[domain.len() - 1];
        let wr = r.smul(ProductCheck::somega(domain));
        ProductCheck::lemma_fpow_canon(omega, (n - 1) as nat);
        assert(last_point.canon());
        assert(wr.canon());
        assert(skzg_ok(srs, scommit(powers, t), last_point, seval(t, last_point), sopen_proof(powers, t, last_point)));
        assert(skzg_ok(srs, scommit(powers, t), r, seval(t, r), sopen_proof(powers, t, r)));
        assert(skzg_ok(srs, scommit(powers, t), wr, seval(t, wr), sopen_proof(powers, t, wr)));
        assert(skzg_ok(srs, scommit(powers, f), wr, seval(f, wr), sopen_proof(powers, f, wr)));
        assert(skzg_ok(srs, scommit(powers, q), r, seval(q, r), sopen_proof(powers, q, r)));
    }

    /// The checks of `verify`, in order.
    pub open spec fn sverify(srs: SRS, domain: Seq<ScalarField>, p: ProductCheckProof) -> bool {
        let wr = p.r.smul(p.omega);
        &&& skzg_ok(srs, p.t_commit, p.last_point, p.last_eval, p.last_proof)
        &&& p.last_eval == ScalarField::sone()
        &&& skzg_ok(srs, p.t_commit, p.r, p.t_eval_r, p.t_proof_r)
        &&& skzg_ok(srs, p.t_commit, wr, p.t_eval_wr, p.t_proof_wr)
        &&& skzg_ok(srs, p.f_commit, wr, p.f_eval_wr, p.f_proof_wr)
        &&& skzg_ok(srs, p.q_commit, p.r, p.q_eval_r, p.q_proof_r)
        &&& p.t_eval_wr.ssub(p.t_eval_r.smul(p.f_eval_wr)) == p.q_eval_r.smul(
            seval(ssubgroup_vanishing(domain.len()), p.r),
        )
    }

    /// A product-check proof whose claimed value at the last domain point is not one is
    /// rejected, whatever its other parts.
    pub proof fn lemma_rejects_last_value_not_one(srs: SRS, domain: Seq<ScalarField>, p: ProductCheckProof)
        requires
            p.last_eval != ScalarField::sone(),
        ensures
            !ProductCheck::sverify(srs, domain, p),
    {
    }

    /// Each pairing that `verify` computes is defined where the checks before it pass.
    pub open spec fn verify_defined(srs: SRS, p: ProductCheckProof) -> bool {
        let wr = p.r.smul(p.omega);
        let ok1 = skzg_ok(srs, p.t_commit, p.last_point, p.last_eval, p.last_proof)
            && p.last_eval == ScalarField::sone();
        let ok2 = ok1 && skzg_ok(srs, p.t_commit, p.r, p.t_eval_r, p.t_proof_r);
        let ok3 = ok2 && skzg_ok(srs, p.t_commit, wr, p.t_eval_wr, p.t_proof_wr);
        let ok4 = ok3 && skzg_ok(srs, p.f_commit, wr, p.f_eval_wr, p.f_proof_wr);
        &&& sverify_defined(srs, p.t_commit, p.last_point, p.last_eval, p.last_proof)
        &&& ok1 ==> sverify_defined(srs, p.t_commit, p.r, p.t_eval_r, p.t_proof_r)
        &&& ok2 ==> sverify_defined(srs, p.t_commit, wr, p.t_eval_wr, p.t_proof_wr)
        &&& ok3 ==> sverify_defined(srs, p.f_commit, wr, p.f_eval_wr, p.f_proof_wr)
        &&& ok4 ==> sverify_defined(srs, p.q_commit, p.r, p.q_eval_r, p.q_proof_r)
    }

    proof fn lemma_q_len(f: Seq<ScalarField>, domain: Seq<ScalarField>)
        requires
            domain.len() > 0,
        ensures
            ProductCheck::sq(f, domain).len() <= f.len(),
    {
        let n = domain.len();
        let t = ProductCheck::st(f, domain);
        let omega = ProductCheck::somega(domain);
        lemma_interpolate_len(domain, sprefix_products(seval_all(f, domain)));
        lemma_strim(sshift(t, omega));
        lemma_strim(sshift(f, omega));
        let fs = strim(sshift(f, omega));
        lemma_sprod_len(t, fs);
        let tf = strim(sprod(t, fs));
        let ts = strim(sshift(t, omega));
        lemma_strim(ssub_coeffs(ts, tf));
        let h = ProductCheck::sh(f, domain);
        assert(ssubgroup_vanishing(n).len() == n + 1);
        lemma_sdivide_len(h, ssubgroup_vanishing(n));
    }

    /// Product check on the multiplicative subgroup domain `1, omega, omega^2, ...`:
    /// prove that `prod_{x in domain} f(x) = 1`.
    pub fn prove(
        kzg: &KZG10,
        f: &DensePolynomial,
        domain: &[ScalarField],
        r: ScalarField,
    ) -> (proof: ProductCheckProof)
        requires
            ProductCheck::prove_defined(kzg.srs, f@, domain@),
        ensures
            proof == ProductCheck::sprove(kzg.srs, f@, domain@, r),
    {
        let n = domain.len();
        let mut f_vals: Vec<ScalarField> = Vec::new();
        let mut i: usize = 0;
        while i < n
            invariant
                n == domain.len(),
                i <= n,
                f_vals@ =~= seval_all(f@, domain@).subrange(0, i as int),
            decreases n - i,
        {
            f_vals.push(f.evaluate(&domain[i]));
            i = i + 1;
        }
        assert(f_vals@ =~= seval_all(f@, domain@));

        let mut t_vals: Vec<ScalarField> = Vec::new();
        t_vals.push(f_vals[0]);
        let mut i: usize = 1;
        while i < n
            invariant
                n == domain.len(),
                n == f_vals.len(),
                1 <= i <= n,
                t_vals@ =~= sprefix_products(f_vals@).subrange(0, i as int),
            decreases n - i,
        {
            let v = t_vals[i - 1].mul(&f_vals[i]);
            t_vals.push(v);
            i = i + 1;
        }
        assert(t_vals@ =~= sprefix_products(f_vals@));

        let t = interpolate(domain, t_vals.as_slice());

        let omega = if n > 1 {
            let d0 = domain[0];
            proof {
                use_type_invariant(&d0);
            }
            domain[1].mul(&d0.inverse().unwrap())
        } else {
            ScalarField::one()
        };
        let t_shift = shift_by_omega(&t, omega);
        let f_shift = shift_by_omega(f, omega);
        proof {
            lemma_interpolate_len(domain@, t_vals@);
            lemma_strim(sshift(f@, omega));
            lemma_strim(sshift(t@, omega));
            ProductCheck::lemma_q_len(f@, domain@);
        }
        let tf = mul_poly(&t, &f_shift);
        let h = sub_poly(&t_shift, &tf);
        let z = subgroup_vanishing_poly(n);
        let (q, _rem) = h.divide_with_q_and_r(&z);

        let t_commit = kzg.commit(&t);
        let q_commit = kzg.commit(&q);
        let last_point = domain[n - 1];
        let (last_eval, last_proof) = kzg.open(&t, last_point);

        let wr = r.mul(&omega);
        let (t_eval_r, t_proof_r) = kzg.open(&t, r);
        let (t_eval_wr, t_proof_wr) = kzg.open(&t, wr);
        let (f_eval_wr, f_proof_wr) = kzg.open(f, wr);
        let (q_eval_r, q_proof_r) = kzg.open(&q, r);

        ProductCheckProof {
            f_commit: kzg.commit(f),
            t_commit,
            q_commit,
            last_eval,
            last_proof,
            last_point,
            r,
            t_eval_r,
            t_proof_r,
            t_eval_wr,
            t_proof_wr,
            f_eval_wr,
            f_proof_wr,
            q_eval_r,
            q_proof_r,
            omega,
        }
    }

    pub fn verify(kzg: &KZG10, domain: &[ScalarField], proof: &ProductCheckProof) -> (ok: bool)
        requires
            domain.len() < usize::MAX,
            ProductCheck::verify_defined(kzg.srs, *proof),
        ensures
            ok == ProductCheck::sverify(kzg.srs, domain@, *proof),
    {
        if !kzg.verify(&proof.t_commit, proof.last_point, proof.last_eval, &proof.last_proof) {
            return false;
        }
        if proof.last_eval != ScalarField::one() {
            return false;
        }
        let r = proof.r;
        let wr = r.mul(&proof.omega);
        if !kzg.verify(&proof.t_commit, r, proof.t_eval_r, &proof.t_proof_r) {
            return false;
        }
        if !kzg.verify(&proof.t_commit, wr, proof.t_eval_wr, &proof.t_proof_wr) {
            return false;
        }
        if !kzg.verify(&proof.f_commit, wr, proof.f_eval_wr, &proof.f_proof_wr) {
            return false;
        }
        if !kzg.verify(&proof.q_commit, r, proof.q_eval_r, &proof.q_proof_r) {
            return false;
        }
        let z = subgroup_vanishing_poly(domain.len());
        let z_r = z.evaluate(&r);
        proof.t_eval_wr.sub(&proof.t_eval_r.mul(&proof.f_eval_wr)) == proof.q_eval_r.mul(&z_r)
    }
}


/// The proof of a prescribed permutation check: a product check on the ratio polynomial,
/// together with the commitment to `f` and its opening at the product check's point.
#[derive(Debug, Clone, Copy)]
pub struct PrescribedPermutationProof {
    pub f_commit: G1Point,
    pub f_eval_r: ScalarField,
    pub f_proof_r: G1Point,
    pub product: ProductCheckProof,
}

/// `d(s[0]) * d(s[1]) * ...` over the integers.
pub open spec fn dprod(s: Seq<ScalarField>, d: spec_fn(ScalarField) -> int) -> int
    decreases s.len(),
{
    if s.len() == 0 {
        1
    } else {
        dprod(s.drop_last(), d) * d(s.last())
    }
}

/// `f(0) * f(1) * ... * f(n - 1)` over the integers.
pub open spec fn iprod(f: spec_fn(int) -> int, n: nat) -> int
    decreases n,
{
    if n == 0 {
        1
    } else {
        iprod(f, (n - 1) as nat) * f(n - 1)
    }
}

/// Taking one factor out of the product.
proof fn lemma_dprod_remove(s: Seq<ScalarField>, d: spec_fn(ScalarField) -> int, j: int)
    requires
        0 <= j < s.len(),
    ensures
        dprod(s, d) == dprod(s.remove(j), d) * d(s[j]),
    decreases s.len(),
{
    if j < s.len() - 1 {
        let dl = s.drop_last();
        lemma_dprod_remove(dl, d, j);
        assert(s.remove(j).drop_last() =~= dl.remove(j));
        assert(s.remove(j).last() == s.last());
        let (a, b, c) = (dprod(dl.remove(j), d), d(s[j]), d(s.last()));
        assert((a * b) * c == (a * c) * b) by (nonlinear_arith);
    } else {
        assert(s.remove(j) =~= s.drop_last());
    }
}

/// The product does not depend on the order of the factors.
proof fn lemma_dprod_perm(s1: Seq<ScalarField>, s2: Seq<ScalarField>, d: spec_fn(ScalarField) -> int)
    requires
        s1.to_multiset() == s2.to_multiset(),
    ensures
        dprod(s1, d) == dprod(s2, d),
    decreases s1.len(),
{
    broadcast use vstd::seq_lib::group_to_multiset_ensures;

    assert(s1.to_multiset().len() == s1.len());
    assert(s2.to_multiset().len() == s2.len());
    if s1.len() == 0 {
        assert(s2.len() == 0);
    } else {
        let x = s1.last();
        assert(s1.contains(x)) by {
            assert(s1[s1.len() - 1] == x);
        }
        assert(s1.to_multiset().count(x) > 0);
        assert(s2.to_multiset().count(x) > 0);
        assert(s2.contains(x));
        let j = choose|j: int| 0 <= j < s2.len() && s2[j] == x;
        assert(s1.drop_last() =~= s1.remove(s1.len() - 1));
        lemma_dprod_perm(s1.drop_last(), s2.remove(j), d);
        lemma_dprod_remove(s2, d, j);
    }
}

/// The product of a sequence, read through its indices.
proof fn lemma_dprod_iprod(s: Seq<ScalarField>, d: spec_fn(ScalarField) -> int)
    ensures
        iprod(|i: int| d(s[i]), s.len()) == dprod(s, d),
    decreases s.len(),
{
    if s.len() > 0 {
        let dl = s.drop_last();
        lemma_dprod_iprod(dl, d);
        lemma_iprod_ext(|i: int| d(s[i]), |i: int| d(dl[i]), (s.len() - 1) as nat);
    }
}

/// `iprod` reads `f` only below `n`.
proof fn lemma_iprod_ext(f: spec_fn(int) -> int, g: spec_fn(int) -> int, n: nat)
    requires
        forall|i: int| 0 <= i < n ==> #[trigger] f(i) == g(i),
    ensures
        iprod(f, n) == iprod(g, n),
    decreases n,
{
    if n > 0 {
        lemma_iprod_ext(f, g, (n - 1) as nat);
    }
}

/// The product of products is the product of the factors' products.
proof fn lemma_iprod_split(f: spec_fn(int) -> int, g: spec_fn(int) -> int, h: spec_fn(int) -> int, n: nat)
    requires
        forall|i: int| 0 <= i < n ==> #[trigger] h(i) == f(i) * g(i),
    ensures
        iprod(h, n) == iprod(f, n) * iprod(g, n),
    decreases n,
{
    if n > 0 {
        let k = (n - 1) as nat;
        lemma_iprod_split(f, g, h, k);
        let (a, b) = (iprod(f, k), iprod(g, k));
        assert(h(k as int) == f(k as int) * g(k as int));
        assert((a * b) * (f(k as int) * g(k as int)) == (a * f(k as int)) * (b * g(k as int))) by (nonlinear_arith);
    }
}

/// Factors congruent modulo 17 give congruent products.
proof fn lemma_iprod_congruent(f: spec_fn(int) -> int, g: spec_fn(int) -> int, n: nat)
    requires
        forall|i: int| 0 <= i < n ==> #[trigger] (f(i) - g(i)) % (R as int) == 0,
    ensures
        (iprod(f, n) - iprod(g, n)) % (R as int) == 0,
    decreases n,
{
    let m = R as int;
    lemma_small_mod(0, R as nat);
    if n > 0 {
        let k = (n - 1) as nat;
        lemma_iprod_congruent(f, g, k);
        let (a, b, x, y) = (iprod(f, k), iprod(g, k), f(k as int), g(k as int));
        assert((x - y) % m == 0);
        assert(a * x - b * y == (a - b) * x + b * (x - y)) by (nonlinear_arith);
        lemma_mul_mod_noop_left(a - b, x, m);
        lemma_mul_mod_noop_right(b, x - y, m);
        lemma_add_mod_noop((a - b) * x, b * (x - y), m);
    }
}

/// The running product of field elements is the integer product of their residues, reduced.
proof fn lemma_prefix_prod_val(v: Seq<ScalarField>, k: nat)
    requires
        k < v.len(),
        v[0].canon(),
    ensures
        sprefix_prod(v, k).val() as int == iprod(|i: int| v[i].val() as int, k + 1) % (R as int),
    decreases k,
{
    let m = R as int;
    if k == 0 {
        lemma_small_mod(v[0].val(), R as nat);
        assert(iprod(|i: int| v[i].val() as int, 0) == 1);
    } else {
        lemma_prefix_prod_val(v, (k - 1) as nat);
        let a = iprod(|i: int| v[i].val() as int, k);
        lemma_mul_mod_noop_left(a, v[k as int].val() as int, m);
    }
}

pub struct PrescribedPermutationCheck;

impl PrescribedPermutationCheck {
    /// `g(y) + beta * y + gamma`.
    pub open spec fn sdenominator(g: Seq<ScalarField>, y: ScalarField, beta: ScalarField, gamma: ScalarField) -> ScalarField {
        seval(g, y).sadd(beta.smul(y)).sadd(gamma)
    }

    /// The ratios `(f(y) + beta * W(y) + gamma) / (g(y) + beta * y + gamma)` over the domain.
    pub open spec fn sratios(
        f: Seq<ScalarField>,
        g: Seq<ScalarField>,
        domain: Seq<ScalarField>,
        w_values: Seq<ScalarField>,
        beta: ScalarField,
        gamma: ScalarField,
    ) -> Seq<ScalarField> {
        Seq::new(
            domain.len(),
            |i: int|
                seval(f, domain[i]).sadd(beta.smul(w_values[i])).sadd(gamma).smul(
                    PrescribedPermutationCheck::sdenominator(g, domain[i], beta, gamma).sinv(),
                ),
        )
    }

    proof fn lemma_iprod_one(n: nat)
        ensures
            iprod(|i: int| 1int, n) == 1,
        decreases n,
    {
        if n > 0 {
            Self::lemma_iprod_one((n - 1) as nat);
        }
    }

    /// When `W` rearranges the domain and `f(y) == g(W(y))` on it, the ratios multiply to one.
    proof fn lemma_ratios_product(
        f: Seq<ScalarField>,
        g: Seq<ScalarField>,
        domain: Seq<ScalarField>,
        w_values: Seq<ScalarField>,
        beta: ScalarField,
        gamma: ScalarField,
    )
        requires
            domain.len() > 0,
            w_values.len() == domain.len(),
            w_values.to_multiset() == domain.to_multiset(),
            forall|i: int| 0 <= i < domain.len() ==> #[trigger] seval(f, domain[i]) == seval(g, w_values[i]),
            forall|i: int|
                0 <= i < domain.len() ==> #[trigger] PrescribedPermutationCheck::sdenominator(g, domain[i], beta, gamma).val()
                    != 0,
        ensures
            sprefix_prod(PrescribedPermutationCheck::sratios(f, g, domain, w_values, beta, gamma), (domain.len() - 1) as nat)
                == ScalarField::sone(),
    {
        let m = R as int;
        let n = domain.len();
        let ratios = PrescribedPermutationCheck::sratios(f, g, domain, w_values, beta, gamma);
        let dd = |y: ScalarField| PrescribedPermutationCheck::sdenominator(g, y, beta, gamma);
        let dv = |y: ScalarField| dd(y).val() as int;
        let iv = |i: int| dd(domain[i]).sinv().val() as int;
        let rv = |i: int| ratios[i].val() as int;
        let num = |i: int| dv(w_values[i]) * iv(i);
        let den = |i: int| dv(domain[i]) * iv(i);
        lemma_small_mod(0, R as nat);
        lemma_small_mod(1, R as nat);
        // Each ratio is D(W(y)) / D(y).
        assert forall|i: int| 0 <= i < n implies #[trigger] (rv(i) - num(i)) % m == 0 by {
            assert(seval(f, domain[i]) == seval(g, w_values[i]));
            assert(ratios[i] == dd(w_values[i]).smul(dd(domain[i]).sinv()));
            lemma_small_mod(dd(w_values[i]).val(), R as nat);
            lemma_mod_equivalence(rv(i), num(i), m);
            lemma_mod_twice(num(i), m);
        }
        lemma_iprod_congruent(rv, num, n);
        lemma_iprod_split(|i: int| dv(w_values[i]), iv, num, n);
        lemma_iprod_split(|i: int| dv(domain[i]), iv, den, n);
        lemma_dprod_iprod(w_values, dv);
        lemma_dprod_iprod(domain, dv);
        lemma_dprod_perm(w_values, domain, dv);
        // Each D(y) / D(y) is one.
        assert forall|i: int| 0 <= i < n implies #[trigger] (den(i) - 1int) % m == 0 by {
            let x = dd(domain[i]);
            lemma_small_mod(x.val(), R as nat);
            ScalarField::lemma_inv_cancel(x);
            assert(x.smul(x.sinv()).val() == 1);
            lemma_mod_equivalence(den(i), 1, m);
        }
        lemma_iprod_congruent(den, |i: int| 1int, n);
        Self::lemma_iprod_one(n);
        lemma_prefix_prod_val(ratios, (n - 1) as nat);
        lemma_add_mod_noop(iprod(rv, n) - iprod(num, n), iprod(den, n) - 1, m);
        lemma_mod_equivalence(iprod(rv, n), 1, m);
        ScalarField::lemma_val_eq(sprefix_prod(ratios, (n - 1) as nat), ScalarField::sone());
    }

    /// On the subgroup `1, w, ..., w^(n - 1)` of order `n`, when `W` rearranges the subgroup
    /// and `f(y) == g(W(y))` there, the honest proof passes the product check's equations on
    /// the ratio polynomial at every challenge `r`.
    pub proof fn lemma_honest_equations(
        srs: SRS,
        f: Seq<ScalarField>,
        g: Seq<ScalarField>,
        n: nat,
        omega: ScalarField,
        w_values: Seq<ScalarField>,
        beta: ScalarField,
        gamma: ScalarField,
        r: ScalarField,
    )
        requires
            n > 0,
            omega.canon(),
            fpow(omega, n) == ScalarField::sone(),
            distinct(smult_domain(n, omega)),
            w_values.len() == n,
            w_values.to_multiset() == smult_domain(n, omega).to_multiset(),
            forall|i: int| 0 <= i < n ==> #[trigger] seval(f, smult_domain(n, omega)[i]) == seval(g, w_values[i]),
            forall|i: int|
                0 <= i < n ==> #[trigger] PrescribedPermutationCheck::sdenominator(
                    g,
                    smult_domain(n, omega)[i],
                    beta,
                    gamma,
                ).val() != 0,
        ensures
            ({
                let p = PrescribedPermutationCheck::sprove(srs, f, g, smult_domain(n, omega), w_values, beta, gamma, r).product;
                &&& p.last_eval == ScalarField::sone()
                &&& p.t_eval_wr.ssub(p.t_eval_r.smul(p.f_eval_wr)) == p.q_eval_r.smul(
                    seval(ssubgroup_vanishing(n), p.r),
                )
            }),
    {
        let domain = smult_domain(n, omega);
        let ratios = PrescribedPermutationCheck::sratios(f, g, domain, w_values, beta, gamma);
        let z = PrescribedPermutationCheck::sz(f, g, domain, w_values, beta, gamma);
        Self::lemma_ratios_product(f, g, domain, w_values, beta, gamma);
        assert forall|i: int| 0 <= i < n implies #[trigger] domain[i].canon() by {
        }
        assert forall|i: int| 0 <= i < n implies #[trigger] ratios[i].canon() by {
        }
        assert forall|i: int| 0 <= i < n implies #[trigger] seval_all(z, domain)[i] == ratios[i] by {
            lemma_interpolate_eval(domain, ratios, i);
        }
        assert(seval_all(z, domain) =~= ratios);
        ProductCheck::lemma_honest_equations(srs, z, n, omega, r);
    }

    /// Completeness of the prescribed permutation check: over the reference string of
    /// `setup(max_degree, tau)`, the honest proof that `f(x) == g(W(x))` on the subgroup of
    /// distinct powers of `omega`, for `W` a permutation of it, can be verified and is
    /// accepted, at every canonical challenge `r`.
    pub proof fn lemma_complete(
        srs: SRS,
        max_degree: nat,
        tau: ScalarField,
        f: Seq<ScalarField>,
        g: Seq<ScalarField>,
        n: nat,
        omega: ScalarField,
        w_values: Seq<ScalarField>,
        beta: ScalarField,
        gamma: ScalarField,
        r: ScalarField,
    )
        requires
            is_setup_srs(srs, max_degree, tau),
            PrescribedPermutationCheck::prove_defined(srs, f, g, smult_domain(n, omega), w_values, beta, gamma),
            r.canon(),
            n > 0,
            omega.canon(),
            fpow(omega, n) == ScalarField::sone(),
            distinct(smult_domain(n, omega)),
            w_values.len() == n,
            w_values.to_multiset() == smult_domain(n, omega).to_multiset(),
            forall|i: int| 0 <= i < n ==> #[trigger] seval(f, smult_domain(n, omega)[i]) == seval(g, w_values[i]),
        ensures
            PrescribedPermutationCheck::verify_defined(
                srs,
                smult_domain(n, omega),
                PrescribedPermutationCheck::sprove(srs, f, g, smult_domain(n, omega), w_values, beta, gamma, r),
            ),
            PrescribedPermutationCheck::sverify(
                srs,
                smult_domain(n, omega),
                PrescribedPermutationCheck::sprove(srs, f, g, smult_domain(n, omega), w_values, beta, gamma, r),
            ),
    {
        lemma_kzg_complete(srs, max_degree, tau);
        PrescribedPermutationCheck::lemma_complete_given_kzg(srs, f, g, n, omega, w_values, beta, gamma, r);
    }

    /// The prescribed permutation check is complete over every reference string on which
    /// honest KZG openings verify.
    pub(crate) proof fn lemma_complete_given_kzg(
        srs: SRS,
        f: Seq<ScalarField>,
        g: Seq<ScalarField>,
        n: nat,
        omega: ScalarField,
        w_values: Seq<ScalarField>,
        beta: ScalarField,
        gamma: ScalarField,
        r: ScalarField,
    )
        requires
            kzg_complete(srs),
            PrescribedPermutationCheck::prove_defined(srs, f, g, smult_domain(n, omega), w_values, beta, gamma),
            r.canon(),
            n > 0,
            omega.canon(),
            fpow(omega, n) == ScalarField::sone(),
            distinct(smult_domain(n, omega)),
            w_values.len() == n,
            w_values.to_multiset() == smult_domain(n, omega).to_multiset(),
            forall|i: int| 0 <= i < n ==> #[trigger] seval(f, smult_domain(n, omega)[i]) == seval(g, w_values[i]),
        ensures
            PrescribedPermutationCheck::verify_defined(
                srs,
                smult_domain(n, omega),
                PrescribedPermutationCheck::sprove(srs, f, g, smult_domain(n, omega), w_values, beta, gamma, r),
            ),
            PrescribedPermutationCheck::sverify(
                srs,
                smult_domain(n, omega),
                PrescribedPermutationCheck::sprove(srs, f, g, smult_domain(n, omega), w_values, beta, gamma, r),
            ),
    {
        let domain = smult_domain(n, omega);
        let powers = srs.g1_powers@;
        let ratios = PrescribedPermutationCheck::sratios(f, g, domain, w_values, beta, gamma);
        let z = PrescribedPermutationCheck::sz(f, g, domain, w_values, beta, gamma);
        assert forall|i: int| 0 <= i < n implies #[trigger] PrescribedPermutationCheck::sdenominator(
            g,
            domain[i],
            beta,
            gamma,
        ).val() != 0 by {
        }
        Self::lemma_ratios_product(f, g, domain, w_values, beta, gamma);
        assert forall|i: int| 0 <= i < n implies #[trigger] domain[i].canon() by {
        }
        assert forall|i: int| 0 <= i < n implies #[trigger] ratios[i].canon() by {
        }
        assert forall|i: int| 0 <= i < n implies #[trigger] seval_all(z, domain)[i] == ratios[i] by {
            lemma_interpolate_eval(domain, ratios, i);
        }
        assert(seval_all(z, domain) =~= ratios);
        ProductCheck::lemma_complete_given_kzg(srs, z, n, omega, r);
        assert(skzg_ok(srs, scommit(powers, f), r, seval(f, r), sopen_proof(powers, f, r)));
    }

    /// The proof that `prove` builds is rejected, whatever the challenge and the verifier's
    /// reference string, when the ratios
    /// `(f(x) + beta W(x) + gamma) / (g(x) + beta x + gamma)` over the subgroup generated by
    /// `omega` do not multiply to one.
    pub proof fn lemma_rejects_wrong_product(
        srs: SRS,
        verifier_srs: SRS,
        f: Seq<ScalarField>,
        g: Seq<ScalarField>,
        n: nat,
        omega: ScalarField,
        w_values: Seq<ScalarField>,
        beta: ScalarField,
        gamma: ScalarField,
        r: ScalarField,
    )
        requires
            n > 0,
            omega.canon(),
            distinct(smult_domain(n, omega)),
            w_values.len() == n,
            sprefix_prod(
                PrescribedPermutationCheck::sratios(f, g, smult_domain(n, omega), w_values, beta, gamma),
                (n - 1) as nat,
            ) != ScalarField::sone(),
        ensures
            !PrescribedPermutationCheck::sverify(
                verifier_srs,
                smult_domain(n, omega),
                PrescribedPermutationCheck::sprove(srs, f, g, smult_domain(n, omega), w_values, beta, gamma, r),
            ),
    {
        let domain = smult_domain(n, omega);
        let ratios = PrescribedPermutationCheck::sratios(f, g, domain, w_values, beta, gamma);
        let z = PrescribedPermutationCheck::sz(f, g, domain, w_values, beta, gamma);
        assert forall|i: int| 0 <= i < n implies #[trigger] domain[i].canon() by {
        }
        assert forall|i: int| 0 <= i < n implies #[trigger] ratios[i].canon() by {
        }
        assert forall|i: int| 0 <= i < n implies #[trigger] seval_all(z, domain)[i] == ratios[i] by {
            lemma_interpolate_eval(domain, ratios, i);
        }
        assert(seval_all(z, domain) =~= ratios);
        ProductCheck::lemma_rejects_wrong_product(srs, verifier_srs, z, domain, r);
    }

    /// The ratio polynomial, interpolated over the domain.
    pub open spec fn sz(
        f: Seq<ScalarField>,
        g: Seq<ScalarField>,
        domain: Seq<ScalarField>,
        w_values: Seq<ScalarField>,
        beta: ScalarField,
        gamma: ScalarField,
    ) -> Seq<ScalarField> {
        sinterpolate(domain, PrescribedPermutationCheck::sratios(f, g, domain, w_values, beta, gamma))
    }

    pub open spec fn sprove(
        srs: SRS,
        f: Seq<ScalarField>,
        g: Seq<ScalarField>,
        domain: Seq<ScalarField>,
        w_values: Seq<ScalarField>,
        beta: ScalarField,
        gamma: ScalarField,
        r: ScalarField,
    ) -> PrescribedPermutationProof {
        let powers = srs.g1_powers@;
        PrescribedPermutationProof {
            f_commit: scommit(powers, f),
            f_eval_r: seval(f, r),
            f_proof_r: sopen_proof(powers, f, r),
            product: ProductCheck::sprove(
                srs,
                PrescribedPermutationCheck::sz(f, g, domain, w_values, beta, gamma),
                domain,
                r,
            ),
        }
    }

    /// The inputs on which `prove` runs: one value of `W` per point, no zero denominator,
    /// and a product check that runs on the ratio polynomial.
    pub open spec fn prove_defined(
        srs: SRS,
        f: Seq<ScalarField>,
        g: Seq<ScalarField>,
        domain: Seq<ScalarField>,
        w_values: Seq<ScalarField>,
        beta: ScalarField,
        gamma: ScalarField,
    ) -> bool {
        &&& domain.len() == w_values.len()
        &&& forall|i: int|
            0 <= i < domain.len() ==> #[trigger] PrescribedPermutationCheck::sdenominator(
                g,
                domain[i],
                beta,
                gamma,
            ).val() != 0
        &&& f.len() <= srs.g1_powers@.len()
        &&& ProductCheck::prove_defined(
            srs,
            PrescribedPermutationCheck::sz(f, g, domain, w_values, beta, gamma),
            domain,
        )
    }

    pub open spec fn sverify(srs: SRS, domain: Seq<ScalarField>, p: PrescribedPermutationProof) -> bool {
        &&& ProductCheck::sverify(srs, domain, p.product)
        &&& skzg_ok(srs, p.f_commit, p.product.r, p.f_eval_r, p.f_proof_r)
    }

    /// A permutation-check proof whose product check claims a value other than one at the
    /// last domain point is rejected, whatever its other parts.
    pub proof fn lemma_rejects_last_value_not_one(
        srs: SRS,
        domain: Seq<ScalarField>,
        p: PrescribedPermutationProof,
    )
        requires
            p.product.last_eval != ScalarField::sone(),
        ensures
            !PrescribedPermutationCheck::sverify(srs, domain, p),
    {
    }

    pub open spec fn verify_defined(srs: SRS, domain: Seq<ScalarField>, p: PrescribedPermutationProof) -> bool {
        &&& ProductCheck::verify_defined(srs, p.product)
        &&& ProductCheck::sverify(srs, domain, p.product) ==> sverify_defined(
            srs,
            p.f_commit,
            p.product.r,
            p.f_eval_r,
            p.f_proof_r,
        )
    }

    /// Prove that `f(x) = g(W(x))` for all `x` in the domain via a product check:
    /// `f'(x) = f(x) + beta * W(x) + gamma`, `g'(x) = g(x) + beta * x + gamma`,
    /// `z(x) = f' / g'`, then prove `prod_{x in domain} z(x) = 1`.
    pub fn prove(
        kzg: &KZG10,
        f: &DensePolynomial,
        g: &DensePolynomial,
        domain: &[ScalarField],
        w_values: &[ScalarField],
        beta: ScalarField,
        gamma: ScalarField,
        r: ScalarField,
    ) -> (proof: PrescribedPermutationProof)
        requires
            PrescribedPermutationCheck::prove_defined(
                kzg.srs,
                f@,
                g@,
                domain@,
                w_values@,
                beta,
                gamma,
            ),
        ensures
            proof == PrescribedPermutationCheck::sprove(
                kzg.srs,
                f@,
                g@,
                domain@,
                w_values@,
                beta,
                gamma,
                r,
            ),
    {
        let n = domain.len();
        let ghost ratios = PrescribedPermutationCheck::sratios(f@, g@, domain@, w_values@, beta, gamma);
        let mut a_vals: Vec<ScalarField> = Vec::new();
        let mut i: usize = 0;
        while i < n
            invariant
                n == domain.len(),
                n == w_values.len(),
                i <= n,
                forall|j: int|
                    0 <= j < domain.len() ==> #[trigger] PrescribedPermutationCheck::sdenominator(
                        g@,
                        domain@[j],
                        beta,
                        gamma,
                    ).val() != 0,
                ratios == PrescribedPermutationCheck::sratios(f@, g@, domain@, w_values@, beta, gamma),
                a_vals@ =~= ratios.subrange(0, i as int),
            decreases n - i,
        {
            let y = domain[i];
            let wy = w_values[i];
            let fp = f.evaluate(&y).add(&beta.mul(&wy)).add(&gamma);
            let gp = g.evaluate(&y).add(&beta.mul(&y)).add(&gamma);
            assert(gp == PrescribedPermutationCheck::sdenominator(g@, domain@[i as int], beta, gamma));
            a_vals.push(fp.mul(&gp.inverse().unwrap()));
            i = i + 1;
        }
        assert(a_vals@ =~= ratios);
        let z = interpolate(domain, a_vals.as_slice());
        let product = ProductCheck::prove(kzg, &z, domain, r);
        let f_commit = kzg.commit(f);
        let (f_eval_r, f_proof_r) = kzg.open(f, r);
        PrescribedPermutationProof { f_commit, f_eval_r, f_proof_r, product }
    }

    pub fn verify(kzg: &KZG10, domain: &[ScalarField], proof: &PrescribedPermutationProof) -> (ok: bool)
        requires
            domain.len() < usize::MAX,
            PrescribedPermutationCheck::verify_defined(kzg.srs, domain@, *proof),
        ensures
            ok == PrescribedPermutationCheck::sverify(kzg.srs, domain@, *proof),
    {
        if !ProductCheck::verify(kzg, domain, &proof.product) {
            return false;
        }
        kzg.verify(&proof.f_commit, proof.product.r, proof.f_eval_r, &proof.f_proof_r)
    }
}


/// `c` has multiplicative order exactly `n`.
pub open spec fn is_primitive_root(c: ScalarField, n: nat) -> bool {
    &&& n > 0
    &&& fpow(c, n) == ScalarField::sone()
    &&& forall|k: nat| 0 < k < n ==> #[trigger] fpow(c, k) != ScalarField::sone()
}

/// The powers `1, c, ..., c^(n - 1)` of a primitive `n`-th root of unity are distinct.
pub proof fn lemma_primitive_root_distinct(c: ScalarField, n: nat)
    requires
        is_primitive_root(c, n),
    ensures
        distinct(smult_domain(n, c)),
{
    assert forall|i: int, j: int| 0 <= i < j < n implies #[trigger] smult_domain(n, c)[i] != #[trigger] smult_domain(n, c)[j] by {
        lemma_powers_differ(c, n, i as nat, j as nat);
    }
}

/// Powers `c^i` and `c^j` with `i < j < n` of a primitive `n`-th root `c` differ.
pub(crate) proof fn lemma_powers_differ(c: ScalarField, n: nat, i: nat, j: nat)
    requires
        is_primitive_root(c, n),
        i < j < n,
    ensures
        fpow(c, i) != fpow(c, j),
{
    broadcast use ScalarField::group_scalar_field;

    if fpow(c, i) == fpow(c, j) {
        lemma_equal_powers_absurd(c, n, i, j);
    }
}

/// Where `c^i == c^j` with `i < j < n`, `c^(j - i) == 1`.
proof fn lemma_equal_powers_absurd(c: ScalarField, n: nat, i: nat, j: nat)
    requires
        is_primitive_root(c, n),
        i < j < n,
        fpow(c, i) == fpow(c, j),
    ensures
        fpow(c, (j - i) as nat) == ScalarField::sone(),
{
    broadcast use ScalarField::group_scalar_field;

    let k = (j - i) as nat;
    let a = fpow(c, i).val();
    let d = fpow(c, k).val();
    lemma_prime_17();
    crate::poly_laws::lemma_fpow_add_val(c, i, k);
    crate::poly_laws::lemma_fpow_add_val(c, i, (n - i) as nat);
    crate::poly_laws::lemma_fpow_val(c, 0);
    assert(fpow(c, n).val() == 1) by {
        vstd::arithmetic::div_mod::lemma_small_mod(1, 17);
    }
    assert(fpow(c, i).canon() && fpow(c, k).canon() && fpow(c, (n - i) as nat).canon());
    assert(a < 17 && d < 17);
    // c^i is not zero, since c^i c^(n - i) == 1.
    assert(a != 0) by {
        if a == 0 {
            let b = fpow(c, (n - i) as nat).val();
            assert(a * b == 0) by (nonlinear_arith)
                requires
                    a == 0,
            ;
            vstd::arithmetic::div_mod::lemma_small_mod(0, 17);
        }
    }
    // a == a d (mod 17) with a != 0, so a (d - 1) == 0 (mod 17) and d == 1.
    assert(d != 0) by {
        if d == 0 {
            assert(a * d == 0) by (nonlinear_arith)
                requires
                    d == 0,
            ;
            vstd::arithmetic::div_mod::lemma_small_mod(0, 17);
        }
    }
    if d != 1 {
        let e = (d - 1) as nat;
        lemma_small_mod(a, 17);
        lemma_small_mod(e, 17);
        lemma_no_zero_divisors(a, e, 17);
        assert(a * d == a * e + a) by (nonlinear_arith)
            requires
                e == d - 1,
        ;
        lemma_add_mod_noop((a * e) as int, a as int, 17);
        assert((a * d) % 17 == a);
        lemma_mod_bound((a * e) as int, 17);
        assert(false);
    }
    ScalarField::lemma_val_eq(fpow(c, k), ScalarField::sone());
}

/// Some element of the field has order exactly `n`.
pub open spec fn has_primitive_root(n: nat) -> bool {
    exists|c: nat| c < R && #[trigger] is_primitive_root(ScalarField::from_int(c as int), n)
}

/// Whether `c` has order exactly `n`.
fn has_order(c: ScalarField, n: usize) -> (r: bool)
    ensures
        r == is_primitive_root(c, n as nat),
{
    if n == 0 {
        return false;
    }
    let one = ScalarField::one();
    let mut pow = one.mul(&c);
    assert(fpow(c, 0) == ScalarField::sone());
    assert(pow == fpow(c, 1));
    let mut k: usize = 1;
    while k < n
        invariant
            1 <= k <= n,
            one == ScalarField::sone(),
            pow == fpow(c, k as nat),
            forall|j: nat| 0 < j < k ==> #[trigger] fpow(c, j) != ScalarField::sone(),
        decreases n - k,
    {
        if pow == one {
            assert(fpow(c, k as nat) == ScalarField::sone());
            return false;
        }
        pow = pow.mul(&c);
        k = k + 1;
        assert(pow == fpow(c, k as nat));
    }
    pow == one
}

/// The smallest element of order exactly `n`, a generator of the subgroup of order `n`.
pub fn find_root_of_unity(n: usize) -> (r: ScalarField)
    requires
        has_primitive_root(n as nat),
    ensures
        is_primitive_root(r, n as nat),
        forall|c: nat| c < r.val() ==> !#[trigger] is_primitive_root(ScalarField::from_int(c as int), n as nat),
{
    let mut c: u64 = 0;
    while c < R
        invariant
            c <= R,
            has_primitive_root(n as nat),
            forall|d: nat| d < c ==> !#[trigger] is_primitive_root(ScalarField::from_int(d as int), n as nat),
        decreases R - c,
    {
        let cand = ScalarField::from_u64(c);
        if has_order(cand, n) {
            return cand;
        }
        c = c + 1;
    }
    proof {
        let d = choose|d: nat| d < R && #[trigger] is_primitive_root(ScalarField::from_int(d as int), n as nat);
        assert(!is_primitive_root(ScalarField::from_int(d as int), n as nat));
    }
    ScalarField::zero()
}

} // verus!
