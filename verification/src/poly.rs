//! Dense univariate polynomials over `ScalarField`, held as coefficient vectors with the
//! constant term first and no zero leading coefficient.
use crate::field::{ScalarField, R};
use vstd::prelude::*;

verus! {

broadcast use ScalarField::group_scalar_field;

/// No zero leading coefficient.
pub open spec fn is_trimmed(s: Seq<ScalarField>) -> bool {
    s.len() == 0 || s.last() != ScalarField::szero()
}

/// `s` with its zero leading coefficients removed.
pub open spec fn strim(s: Seq<ScalarField>) -> Seq<ScalarField>
    decreases s.len(),
{
    if s.len() > 0 && s.last() == ScalarField::szero() {
        strim(s.drop_last())
    } else {
        s
    }
}

/// The coefficient of `x^i`, zero beyond the end.
pub open spec fn coeff(s: Seq<ScalarField>, i: int) -> ScalarField {
    if 0 <= i < s.len() {
        s[i]
    } else {
        ScalarField::szero()
    }
}

/// `s[0] + x * (s[1] + x * (s[2] + ...))`: the value of the polynomial at `x`.
pub open spec fn seval(s: Seq<ScalarField>, x: ScalarField) -> ScalarField
    decreases s.len(),
{
    if s.len() == 0 {
        ScalarField::szero()
    } else {
        s[0].sadd(x.smul(seval(s.drop_first(), x)))
    }
}

/// `x^n` by repeated multiplication.
pub open spec fn fpow(x: ScalarField, n: nat) -> ScalarField
    decreases n,
{
    if n == 0 {
        ScalarField::sone()
    } else {
        fpow(x, (n - 1) as nat).smul(x)
    }
}

/// Coefficient-wise sum, before trimming.
pub open spec fn sadd_coeffs(a: Seq<ScalarField>, b: Seq<ScalarField>) -> Seq<ScalarField> {
    Seq::new(
        if a.len() >= b.len() {
            a.len()
        } else {
            b.len()
        },
        |i: int| coeff(a, i).sadd(coeff(b, i)),
    )
}

/// Coefficient-wise difference, before trimming.
pub open spec fn ssub_coeffs(a: Seq<ScalarField>, b: Seq<ScalarField>) -> Seq<ScalarField> {
    Seq::new(
        if a.len() >= b.len() {
            a.len()
        } else {
            b.len()
        },
        |i: int| coeff(a, i).ssub(coeff(b, i)),
    )
}

/// `sum_{j < i} a[j] * b[k - j]`, summed in the order of `j`.
pub open spec fn sconv(a: Seq<ScalarField>, b: Seq<ScalarField>, k: int, i: nat) -> ScalarField
    decreases i,
{
    if i == 0 {
        ScalarField::szero()
    } else {
        let j = i - 1;
        sconv(a, b, k, (i - 1) as nat).sadd(
            if 0 <= k - j < b.len() && j < a.len() {
                a[j].smul(b[k - j])
            } else {
                ScalarField::szero()
            },
        )
    }
}

/// The coefficients of the product `a * b`, before trimming.
pub open spec fn sprod(a: Seq<ScalarField>, b: Seq<ScalarField>) -> Seq<ScalarField> {
    if a.len() == 0 || b.len() == 0 {
        seq![]
    } else {
        Seq::new((a.len() + b.len() - 1) as nat, |k: int| sconv(a, b, k, a.len()))
    }
}

/// The coefficients of `p(omega * x)`: `p[i] * omega^i`.
pub open spec fn sshift(s: Seq<ScalarField>, omega: ScalarField) -> Seq<ScalarField> {
    Seq::new(s.len(), |i: int| s[i].smul(fpow(omega, i as nat)))
}

/// `rem[k + i] -= c * d[i]` for every `i < d.len()`.
pub open spec fn ssub_scaled(rem: Seq<ScalarField>, d: Seq<ScalarField>, c: ScalarField, k: int) -> Seq<
    ScalarField,
> {
    Seq::new(
        rem.len(),
        |j: int|
            if k <= j < k + d.len() {
                rem[j].ssub(c.smul(d[j - k]))
            } else {
                rem[j]
            },
    )
}

/// The long division loop: while the remainder is at least as long as the divisor, cancel
/// its leading coefficient with a multiple of the divisor shifted into place.
pub open spec fn sdiv_loop(
    q: Seq<ScalarField>,
    rem: Seq<ScalarField>,
    d: Seq<ScalarField>,
    lead_inv: ScalarField,
) -> (Seq<ScalarField>, Seq<ScalarField>)
    decreases rem.len(),
{
    if rem.len() == 0 || rem.len() < d.len() || d.len() == 0 {
        (q, rem)
    } else {
        let c = rem.last().smul(lead_inv);
        let k = rem.len() - d.len();
        let rem2 = strim(ssub_scaled(rem, d, c, k));
        if rem2.len() < rem.len() {
            sdiv_loop(q.update(k, c), rem2, d, lead_inv)
        } else {
            (q.update(k, c), rem2)
        }
    }
}

/// Quotient and remainder of `f` by a non-zero `d`, by long division.
pub open spec fn sdivide(f: Seq<ScalarField>, d: Seq<ScalarField>) -> (Seq<ScalarField>, Seq<ScalarField>) {
    if f.len() == 0 {
        (seq![], seq![])
    } else if f.len() < d.len() {
        (seq![], f)
    } else {
        let q0 = Seq::new((f.len() - d.len() + 1) as nat, |i: int| ScalarField::szero());
        let (q, rem) = sdiv_loop(q0, f, d, d.last().sinv());
        (strim(q), rem)
    }
}

pub proof fn lemma_strim(s: Seq<ScalarField>)
    ensures
        is_trimmed(strim(s)),
        strim(s).len() <= s.len(),
        strim(s) =~= s.subrange(0, strim(s).len() as int),
        forall|i: int| strim(s).len() <= i < s.len() ==> s[i] == ScalarField::szero(),
        is_trimmed(s) ==> strim(s) == s,
    decreases s.len(),
{
    if s.len() > 0 && s.last() == ScalarField::szero() {
        lemma_strim(s.drop_last());
        assert forall|i: int| strim(s).len() <= i < s.len() implies s[i] == ScalarField::szero() by {
            if i < s.len() - 1 {
                assert(s.drop_last()[i] == s[i]);
            }
        }
    }
}

proof fn lemma_sdiv_loop_len(
    q: Seq<ScalarField>,
    rem: Seq<ScalarField>,
    d: Seq<ScalarField>,
    lead_inv: ScalarField,
)
    requires
        rem.len() < q.len() + d.len(),
    ensures
        sdiv_loop(q, rem, d, lead_inv).0.len() == q.len(),
    decreases rem.len(),
{
    if !(rem.len() == 0 || rem.len() < d.len() || d.len() == 0) {
        let c = rem.last().smul(lead_inv);
        let k = rem.len() - d.len();
        let rem2 = strim(ssub_scaled(rem, d, c, k));
        if rem2.len() < rem.len() {
            lemma_sdiv_loop_len(q.update(k, c), rem2, d, lead_inv);
        }
    }
}

/// The quotient by `d` has at most `f.len() - d.len() + 1` coefficients.
pub proof fn lemma_sdivide_len(f: Seq<ScalarField>, d: Seq<ScalarField>)
    requires
        d.len() > 0,
    ensures
        f.len() >= d.len() ==> sdivide(f, d).0.len() <= f.len() - d.len() + 1,
        f.len() < d.len() ==> sdivide(f, d).0.len() == 0,
{
    if f.len() >= d.len() {
        let q0 = Seq::new((f.len() - d.len() + 1) as nat, |i: int| ScalarField::szero());
        lemma_sdiv_loop_len(q0, f, d, d.last().sinv());
        lemma_strim(sdiv_loop(q0, f, d, d.last().sinv()).0);
    }
}

proof fn lemma_strim_shrinks(s: Seq<ScalarField>)
    requires
        s.len() > 0,
        s.last() == ScalarField::szero(),
    ensures
        strim(s).len() < s.len(),
{
    lemma_strim(s.drop_last());
}

/// The sum of canonical accumulators with zero leaves them unchanged.
proof fn lemma_add_zero(a: ScalarField)
    requires
        a.canon(),
    ensures
        a.sadd(ScalarField::szero()) == a,
{
    ScalarField::lemma_val_eq(a.sadd(ScalarField::szero()), a);
}

proof fn lemma_sconv_canon(a: Seq<ScalarField>, b: Seq<ScalarField>, k: int, i: nat)
    ensures
        sconv(a, b, k, i).canon(),
    decreases i,
{
    if i > 0 {
        lemma_sconv_canon(a, b, k, (i - 1) as nat);
    }
}

/// A polynomial over `ScalarField`.
#[derive(Debug)]
pub struct DensePolynomial {
    coeffs: Vec<ScalarField>,
}

impl View for DensePolynomial {
    type V = Seq<ScalarField>;

    closed spec fn view(&self) -> Seq<ScalarField> {
        self.coeffs@
    }
}

/// Removes the zero leading coefficients of `v`.
pub fn trim_vec(v: &mut Vec<ScalarField>)
    ensures
        final(v)@ == strim(old(v)@),
{
    proof {
        lemma_strim(v@);
    }
    while v.len() > 0 && v[v.len() - 1].is_zero()
        invariant
            strim(v@) == strim(old(v)@),
        decreases v.len(),
    {
        proof {
            assert(v@.last() == ScalarField::szero());
        }
        v.pop();
    }
}

/// The coefficients of `a * b`, without zero leading coefficients.
pub fn poly_mul_coeffs(a: &[ScalarField], b: &[ScalarField]) -> (out: Vec<ScalarField>)
    requires
        a.len() + b.len() <= usize::MAX,
    ensures
        out@ == strim(sprod(a@, b@)),
{
    if a.len() == 0 || b.len() == 0 {
        return Vec::new();
    }
    let n = a.len() + b.len() - 1;
    let mut out: Vec<ScalarField> = Vec::new();
    while out.len() < n
        invariant
            out.len() <= n,
            forall|k: int| 0 <= k < out.len() ==> out@[k] == ScalarField::szero(),
        decreases n - out.len(),
    {
        out.push(ScalarField::zero());
    }
    let mut i: usize = 0;
    while i < a.len()
        invariant
            i <= a.len(),
            out.len() == n,
            n == a.len() + b.len() - 1,
            forall|k: int| 0 <= k < n ==> #[trigger] out@[k] == sconv(a@, b@, k, i as nat),
        decreases a.len() - i,
    {
        let mut j: usize = 0;
        while j < b.len()
            invariant
                i < a.len(),
                j <= b.len(),
                out.len() == n,
                n == a.len() + b.len() - 1,
                forall|k: int|
                    0 <= k < n ==> #[trigger] out@[k] == if i <= k < i + j {
                        sconv(a@, b@, k, (i + 1) as nat)
                    } else {
                        sconv(a@, b@, k, i as nat)
                    },
            decreases b.len() - j,
        {
            let t = out[i + j].add(&a[i].mul(&b[j]));
            out.set(i + j, t);
            j = j + 1;
        }
        proof {
            assert forall|k: int| 0 <= k < n implies #[trigger] out@[k] == sconv(
                a@,
                b@,
                k,
                (i + 1) as nat,
            ) by {
                if !(i <= k < i + b.len()) {
                    lemma_sconv_canon(a@, b@, k, i as nat);
                    lemma_add_zero(sconv(a@, b@, k, i as nat));
                }
            }
        }
        i = i + 1;
    }
    proof {
        assert(out@ =~= sprod(a@, b@));
    }
    trim_vec(&mut out);
    out
}

/// A copy of `v`.
fn copy_coeffs(v: &Vec<ScalarField>) -> (r: Vec<ScalarField>)
    ensures
        r@ == v@,
{
    let mut r: Vec<ScalarField> = Vec::new();
    let mut i: usize = 0;
    while i < v.len()
        invariant
            i <= v.len(),
            r@ =~= v@.subrange(0, i as int),
        decreases v.len() - i,
    {
        r.push(v[i]);
        i = i + 1;
    }
    proof {
        assert(r@ =~= v@);
    }
    r
}

impl Clone for DensePolynomial {
    fn clone(&self) -> (r: Self)
        ensures
            r@ == self@,
    {
        proof {
            use_type_invariant(self);
        }
        DensePolynomial { coeffs: copy_coeffs(&self.coeffs) }
    }
}

impl DensePolynomial {
    /// No zero leading coefficient.
    #[verifier::type_invariant]
    pub closed spec fn trimmed_inv(self) -> bool {
        is_trimmed(self.coeffs@)
    }

    /// The polynomial with the given coefficients, leading zeros dropped.
    pub fn from_coefficients_vec(coeffs: Vec<ScalarField>) -> (r: Self)
        ensures
            r@ == strim(coeffs@),
    {
        let ghost orig = coeffs@;
        let mut coeffs = coeffs;
        trim_vec(&mut coeffs);
        proof {
            lemma_strim(orig);
        }
        DensePolynomial { coeffs }
    }

    pub fn zero() -> (r: Self)
        ensures
            r@ == Seq::<ScalarField>::empty(),
    {
        DensePolynomial { coeffs: Vec::new() }
    }

    pub fn coeffs(&self) -> (r: &Vec<ScalarField>)
        ensures
            r@ == self@,
    {
        &self.coeffs
    }

    pub fn len(&self) -> (r: usize)
        ensures
            r == self@.len(),
    {
        self.coeffs.len()
    }

    pub fn is_zero(&self) -> (r: bool)
        ensures
            r == (self@.len() == 0),
    {
        self.coeffs.len() == 0
    }

    /// The value at `point`, by Horner's rule.
    pub fn evaluate(&self, point: &ScalarField) -> (r: ScalarField)
        ensures
            r == seval(self@, *point),
    {
        let n = self.coeffs.len();
        let mut acc = ScalarField::zero();
        let mut i = n;
        proof {
            assert(self@.subrange(n as int, n as int) =~= Seq::<ScalarField>::empty());
        }
        while i > 0
            invariant
                i <= n,
                n == self@.len(),
                acc == seval(self@.subrange(i as int, n as int), *point),
            decreases i,
        {
            proof {
                let s = self@.subrange(i - 1, n as int);
                assert(s.drop_first() =~= self@.subrange(i as int, n as int));
            }
            acc = self.coeffs[i - 1].add(&point.mul(&acc));
            i = i - 1;
        }
        proof {
            assert(self@.subrange(0, n as int) =~= self@);
        }
        acc
    }

    /// `self + other`.
    pub fn add(&self, other: &Self) -> (r: Self)
        ensures
            r@ == strim(sadd_coeffs(self@, other@)),
    {
        let n = if self.coeffs.len() >= other.coeffs.len() {
            self.coeffs.len()
        } else {
            other.coeffs.len()
        };
        let mut out: Vec<ScalarField> = Vec::new();
        let mut i: usize = 0;
        while i < n
            invariant
                i <= n,
                n == sadd_coeffs(self@, other@).len(),
                out@ =~= sadd_coeffs(self@, other@).subrange(0, i as int),
            decreases n - i,
        {
            let a = if i < self.coeffs.len() {
                self.coeffs[i]
            } else {
                ScalarField::zero()
            };
            let b = if i < other.coeffs.len() {
                other.coeffs[i]
            } else {
                ScalarField::zero()
            };
            out.push(a.add(&b));
            i = i + 1;
        }
        proof {
            assert(out@ =~= sadd_coeffs(self@, other@));
        }
        DensePolynomial::from_coefficients_vec(out)
    }

    /// `self - other`.
    pub fn sub(&self, other: &Self) -> (r: Self)
        ensures
            r@ == strim(ssub_coeffs(self@, other@)),
    {
        let n = if self.coeffs.len() >= other.coeffs.len() {
            self.coeffs.len()
        } else {
            other.coeffs.len()
        };
        let mut out: Vec<ScalarField> = Vec::new();
        let mut i: usize = 0;
        while i < n
            invariant
                i <= n,
                n == ssub_coeffs(self@, other@).len(),
                out@ =~= ssub_coeffs(self@, other@).subrange(0, i as int),
            decreases n - i,
        {
            let a = if i < self.coeffs.len() {
                self.coeffs[i]
            } else {
                ScalarField::zero()
            };
            let b = if i < other.coeffs.len() {
                other.coeffs[i]
            } else {
                ScalarField::zero()
            };
            out.push(a.sub(&b));
            i = i + 1;
        }
        proof {
            assert(out@ =~= ssub_coeffs(self@, other@));
        }
        DensePolynomial::from_coefficients_vec(out)
    }

    /// `-self`, as `0 - self`.
    pub fn neg(&self) -> (r: Self)
        ensures
            r@ == strim(ssub_coeffs(Seq::empty(), self@)),
    {
        DensePolynomial::zero().sub(self)
    }

    /// Schoolbook product.
    pub fn naive_mul(&self, other: &Self) -> (r: Self)
        requires
            self@.len() + other@.len() <= usize::MAX,
        ensures
            r@ == strim(sprod(self@, other@)),
    {
        let out = poly_mul_coeffs(self.coeffs.as_slice(), other.coeffs.as_slice());
        proof {
            lemma_strim(sprod(self@, other@));
        }
        DensePolynomial { coeffs: out }
    }

    /// Quotient and remainder of the division by a non-zero `divisor`, by long division.
    pub fn divide_with_q_and_r(&self, divisor: &Self) -> (res: (Self, Self))
        requires
            divisor@.len() > 0,
        ensures
            (res.0@, res.1@) == sdivide(self@, divisor@),
    {
        proof {
            use_type_invariant(self);
            use_type_invariant(divisor);
        }
        let n = self.coeffs.len();
        let dn = divisor.coeffs.len();
        if n == 0 {
            return (DensePolynomial::zero(), DensePolynomial::zero());
        }
        if n < dn {
            return (DensePolynomial::zero(), DensePolynomial { coeffs: copy_coeffs(&self.coeffs) });
        }
        let mut quotient: Vec<ScalarField> = Vec::new();
        let qlen = n - dn + 1;
        while quotient.len() < qlen
            invariant
                qlen == n - dn + 1,
                quotient.len() <= qlen,
                forall|i: int| 0 <= i < quotient.len() ==> quotient@[i] == ScalarField::szero(),
            decreases qlen - quotient.len(),
        {
            quotient.push(ScalarField::zero());
        }
        let ghost q0 = quotient@;
        assert(q0 =~= Seq::new((n - dn + 1) as nat, |i: int| ScalarField::szero()));
        let mut rem = copy_coeffs(&self.coeffs);
        let lead = divisor.coeffs[dn - 1];
        proof {
            use_type_invariant(&lead);
            if lead.val() == 0 {
                ScalarField::lemma_val_eq(lead, ScalarField::szero());
            }
        }
        let lead_inv = lead.inverse().unwrap();
        while rem.len() > 0 && rem.len() >= dn
            invariant
                dn == divisor@.len(),
                dn > 0,
                is_trimmed(divisor@),
                lead == divisor@.last(),
                lead.val() % 17 != 0,
                lead_inv == lead.sinv(),
                quotient.len() == n - dn + 1,
                rem.len() <= n,
                is_trimmed(rem@),
                sdiv_loop(quotient@, rem@, divisor@, lead_inv) == sdiv_loop(
                    q0,
                    self@,
                    divisor@,
                    lead_inv,
                ),
            decreases rem.len(),
        {
            let ghost old_rem = rem@;
            let top = rem.len() - 1;
            let c = rem[top].mul(&lead_inv);
            let k = rem.len() - dn;
            quotient.set(k, c);
            let mut i: usize = 0;
            while i < dn
                invariant
                    i <= dn,
                    dn == divisor@.len(),
                    k + dn == old_rem.len(),
                    rem.len() == old_rem.len(),
                    rem@ =~= Seq::new(
                        old_rem.len(),
                        |j: int|
                            if k <= j < k + i {
                                old_rem[j].ssub(c.smul(divisor@[j - k]))
                            } else {
                                old_rem[j]
                            },
                    ),
                decreases dn - i,
            {
                let t = rem[k + i].sub(&c.mul(&divisor.coeffs[i]));
                rem.set(k + i, t);
                i = i + 1;
            }
            proof {
                let s1 = ssub_scaled(old_rem, divisor@, c, k as int);
                assert(rem@ =~= s1);
                ScalarField::lemma_cancel(old_rem.last(), lead);
                assert(s1.last() == ScalarField::szero());
                lemma_strim_shrinks(s1);
                lemma_strim(s1);
            }
            trim_vec(&mut rem);
        }
        (DensePolynomial::from_coefficients_vec(quotient), DensePolynomial { coeffs: rem })
    }
}

} // verus!
