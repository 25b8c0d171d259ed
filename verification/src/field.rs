//! The two prime fields of the library: `TinyFp`, of order 101, over which the curve is
//! defined, and `ScalarField`, of order 17, the order of the curve's subgroup, over which
//! polynomials and commitments are formed.
use crate::arith::{has_inv_mod, inv_mod, lemma_inverse_exists, lemma_inverse_unique, lemma_prime_101, lemma_prime_17};
use vstd::arithmetic::div_mod::*;
use vstd::prelude::*;

verus! {

/// The modulus of `TinyFp`.
pub const PRIME: u64 = 101;

/// The modulus of `ScalarField`: the order of the curve groups.
pub const R: u64 = 17;

/// An element of the prime field of order 101, held as its canonical residue.
#[derive(Clone, Copy, Debug, PartialEq, Eq, Structural)]
pub struct TinyFp {
    v: u64,
}

impl TinyFp {
    /// Every value of the type holds a residue below the modulus.
    #[verifier::type_invariant]
    pub closed spec fn canon(self) -> bool {
        self.v < PRIME
    }

    /// The residue as a natural number.
    pub closed spec fn val(self) -> nat {
        self.v as nat
    }

    /// The field element congruent to the integer `n`.
    pub closed spec fn from_int(n: int) -> Self {
        TinyFp { v: (n % (PRIME as int)) as u64 }
    }

    pub open spec fn szero() -> Self {
        Self::from_int(0)
    }

    pub open spec fn sone() -> Self {
        Self::from_int(1)
    }

    pub open spec fn sadd(self, o: Self) -> Self {
        Self::from_int((self.val() + o.val()) as int)
    }

    pub open spec fn ssub(self, o: Self) -> Self {
        Self::from_int(self.val() - o.val())
    }

    pub open spec fn sneg(self) -> Self {
        Self::from_int(-(self.val() as int))
    }

    pub open spec fn smul(self, o: Self) -> Self {
        Self::from_int((self.val() * o.val()) as int)
    }

    /// The multiplicative inverse (meaningful for non-zero elements).
    pub open spec fn sinv(self) -> Self {
        Self::from_int(inv_mod(self.val(), PRIME as nat) as int)
    }

    pub broadcast proof fn lemma_from_int_val(n: int)
        ensures
            #[trigger] Self::from_int(n).val() == n % (PRIME as int),
            Self::from_int(n).canon(),
    {
    }

    pub broadcast proof fn lemma_val_eq(a: Self, b: Self)
        requires
            #[trigger] a.val() == #[trigger] b.val(),
        ensures
            a == b,
    {
    }

    pub broadcast proof fn lemma_canon_val(a: Self)
        ensures
            #[trigger] a.canon() <==> a.val() < PRIME,
    {
    }

    pub broadcast group group_tiny_field {
        TinyFp::lemma_from_int_val,
        TinyFp::lemma_canon_val,
    }

    /// `a - (a / d) * d == 0` for non-zero `d`.
    pub proof fn lemma_cancel(a: Self, d: Self)
        requires
            d.val() % (PRIME as nat) != 0,
        ensures
            a.ssub(a.smul(d.sinv()).smul(d)) == Self::szero(),
    {
        let p = PRIME as int;
        lemma_prime_101();
        lemma_inverse_exists(d.val(), PRIME as nat);
        let i = inv_mod(d.val(), PRIME as nat) as int;
        let (ai, di) = (a.val() as int, d.val() as int);
        assert(d.sinv().val() == i % p);
        lemma_small_mod(i as nat, PRIME as nat);
        let x = a.smul(d.sinv()).smul(d);
        lemma_mul_mod_noop_left(ai * i, di, p);
        assert(x.val() == ((ai * i) * di) % p);
        assert((ai * i) * di == ai * (di * i)) by (nonlinear_arith);
        lemma_mul_mod_noop_right(ai, di * i, p);
        assert((di * i) % p == 1);
        assert(x.val() == ai % p);
        lemma_sub_mod_noop(ai, ai, p);
        assert(a.ssub(x).val() == (ai - ai % p) % p);
        lemma_mod_twice(ai, p);
        lemma_sub_mod_noop(ai, ai % p, p);
        assert(a.ssub(x).val() == 0);
        Self::lemma_val_eq(a.ssub(x), Self::szero());
    }

    /// Integers congruent modulo the order give the same element.
    pub proof fn lemma_from_int_congruent(a: int, b: int)
        requires
            (a - b) % (PRIME as int) == 0,
        ensures
            Self::from_int(a) == Self::from_int(b),
    {
        lemma_mod_equivalence(a, b, PRIME as int);
        Self::lemma_val_eq(Self::from_int(a), Self::from_int(b));
    }

    /// A canonical element is the image of its residue.
    pub proof fn lemma_from_val(x: Self)
        requires
            x.canon(),
        ensures
            Self::from_int(x.val() as int) == x,
    {
        lemma_small_mod(x.val(), PRIME as nat);
        Self::lemma_val_eq(Self::from_int(x.val() as int), x);
    }

    /// The operations on images of integers are the images of the integer operations.
    pub proof fn lemma_from_int_ops(a: int, b: int)
        ensures
            Self::from_int(a).sadd(Self::from_int(b)) == Self::from_int(a + b),
            Self::from_int(a).ssub(Self::from_int(b)) == Self::from_int(a - b),
            Self::from_int(a).smul(Self::from_int(b)) == Self::from_int(a * b),
            Self::from_int(a).sneg() == Self::from_int(-a),
            Self::from_int(a).sinv() == Self::from_int(inv_mod((a % (PRIME as int)) as nat, PRIME as nat) as int),
    {
        let m = PRIME as int;
        lemma_add_mod_noop(a, b, m);
        lemma_sub_mod_noop(a, b, m);
        lemma_mul_mod_noop(a, b, m);
        lemma_sub_mod_noop(0, a, m);
        lemma_small_mod(0, PRIME as nat);
        Self::lemma_from_int_congruent(a % m + b % m, a + b);
        Self::lemma_from_int_congruent(a % m - b % m, a - b);
        Self::lemma_from_int_congruent((a % m) * (b % m), a * b);
        Self::lemma_from_int_congruent(-(a % m), -a);
    }

    /// `x * x^-1 == 1` for non-zero `x`.
    pub proof fn lemma_inv_cancel(x: Self)
        requires
            x.val() % (PRIME as nat) != 0,
        ensures
            x.smul(x.sinv()) == Self::sone(),
    {
        lemma_prime_101();
        lemma_inverse_exists(x.val(), PRIME as nat);
        let i = inv_mod(x.val(), PRIME as nat);
        lemma_small_mod(i, PRIME as nat);
        Self::lemma_val_eq(x.smul(x.sinv()), Self::sone());
    }

    /// Multiplication commutes, and one is its identity on canonical elements.
    pub proof fn lemma_mul_comm_one(a: Self, b: Self)
        ensures
            a.smul(b) == b.smul(a),
            a.canon() ==> a.smul(Self::sone()) == a && Self::sone().smul(a) == a,
    {
        assert(a.val() * b.val() == b.val() * a.val()) by (nonlinear_arith);
        lemma_small_mod(1, PRIME as nat);
        if a.canon() {
            lemma_small_mod(a.val(), PRIME as nat);
            assert(Self::sone().val() == 1);
            assert(a.val() * 1 == a.val());
            assert(a.smul(Self::sone()).val() == a.val());
            assert(Self::sone().smul(a).val() == a.val());
            Self::lemma_val_eq(a.smul(Self::sone()), a);
            Self::lemma_val_eq(Self::sone().smul(a), a);
        }
    }

    /// Multiplication is associative, and adding `0 - b` is subtracting `b`.
    pub proof fn lemma_mul_assoc_sub(a: Self, b: Self, c: Self)
        ensures
            a.smul(b.smul(c)) == a.smul(b).smul(c),
            a.sadd(Self::szero().ssub(b)) == a.ssub(b),
    {
        let m = PRIME as int;
        let (x, y, z) = (a.val() as int, b.val() as int, c.val() as int);
        lemma_mul_mod_noop_right(x, y * z, m);
        lemma_mul_mod_noop_left(x * y, z, m);
        assert(x * (y * z) == (x * y) * z) by (nonlinear_arith);
        Self::lemma_val_eq(a.smul(b.smul(c)), a.smul(b).smul(c));
        lemma_small_mod(0, PRIME as nat);
        lemma_add_mod_noop_right(x, 0 - y, m);
        Self::lemma_val_eq(a.sadd(Self::szero().ssub(b)), a.ssub(b));
    }

    pub fn zero() -> (r: Self)
        ensures
            r == Self::szero(),
            r.val() == 0,
    {
        TinyFp { v: 0 }
    }

    pub fn one() -> (r: Self)
        ensures
            r == Self::sone(),
            r.val() == 1,
    {
        TinyFp { v: 1 }
    }

    /// The residue of `x`.
    pub fn from_u64(x: u64) -> (r: Self)
        ensures
            r == Self::from_int(x as int),
            r.val() == x % PRIME,
    {
        TinyFp { v: x % PRIME }
    }

    /// The canonical residue as an integer.
    pub fn value(&self) -> (r: u64)
        ensures
            r == self.val(),
            r < PRIME,
    {
        proof {
            use_type_invariant(self);
        }
        self.v
    }

    pub fn is_zero(&self) -> (r: bool)
        ensures
            r == (self.val() == 0),
            r == (*self == Self::szero()),
    {
        proof {
            use_type_invariant(self);
        }
        self.v == 0
    }

    pub fn add(&self, o: &Self) -> (r: Self)
        ensures
            r == self.sadd(*o),
    {
        proof {
            use_type_invariant(self);
            use_type_invariant(o);
        }
        TinyFp { v: (self.v + o.v) % PRIME }
    }

    pub fn sub(&self, o: &Self) -> (r: Self)
        ensures
            r == self.ssub(*o),
    {
        proof {
            use_type_invariant(self);
            use_type_invariant(o);
            lemma_mod_add_multiples_vanish(self.v - o.v, PRIME as int);
        }
        TinyFp { v: (self.v + PRIME - o.v) % PRIME }
    }

    pub fn neg(&self) -> (r: Self)
        ensures
            r == self.sneg(),
    {
        proof {
            use_type_invariant(self);
            lemma_mod_add_multiples_vanish(-(self.v as int), PRIME as int);
        }
        TinyFp { v: (PRIME - self.v) % PRIME }
    }

    pub fn mul(&self, o: &Self) -> (r: Self)
        ensures
            r == self.smul(*o),
    {
        proof {
            use_type_invariant(self);
            use_type_invariant(o);
            assert(self.v * o.v < PRIME * PRIME) by (nonlinear_arith)
                requires
                    self.v < PRIME,
                    o.v < PRIME,
            ;
        }
        TinyFp { v: (self.v * o.v) % PRIME }
    }

    pub fn square(&self) -> (r: Self)
        ensures
            r == self.smul(*self),
    {
        self.mul(self)
    }

    /// The multiplicative inverse: `None` exactly for zero.
    pub fn inverse(&self) -> (r: Option<Self>)
        ensures
            self.val() == 0 ==> r is None,
            self.val() != 0 ==> r == Some(self.sinv()),
    {
        proof {
            use_type_invariant(self);
        }
        if self.v == 0 {
            return None;
        }
        let a = self.v;
        proof {
            lemma_prime_101();
            lemma_small_mod(a as nat, PRIME as nat);
            lemma_inverse_exists(a as nat, PRIME as nat);
        }
        let mut x: u64 = 1;
        while x < PRIME
            invariant
                1 <= x <= PRIME,
                0 < a < PRIME,
                a == self.val(),
                has_inv_mod(a as nat, PRIME as nat),
                forall|y: nat| y < x ==> #[trigger] (((a as nat) * y) % (PRIME as nat)) != 1,
            decreases PRIME - x,
        {
            assert(a * x < PRIME * PRIME) by (nonlinear_arith)
                requires
                    a < PRIME,
                    x < PRIME,
            ;
            if (a * x) % PRIME == 1 {
                proof {
                    lemma_prime_101();
                    lemma_inverse_unique(a as nat, x as nat, PRIME as nat);
                }
                return Some(TinyFp { v: x });
            }
            x = x + 1;
        }
        proof {
            let y = choose|y: nat| y < PRIME && #[trigger] (((a as nat) * y) % (PRIME as nat)) == 1;
            assert(((a as nat) * y) % (PRIME as nat) == 1);
        }
        None
    }

    /// Field division; the divisor must be non-zero.
    pub fn div(&self, o: &Self) -> (r: Self)
        requires
            o.val() != 0,
        ensures
            r == self.smul(o.sinv()),
    {
        let i = o.inverse().unwrap();
        self.mul(&i)
    }
}

impl From<u64> for TinyFp {
    fn from(x: u64) -> (r: Self) {
        TinyFp::from_u64(x)
    }
}

impl vstd::std_specs::convert::FromSpecImpl<u64> for TinyFp {
    open spec fn obeys_from_spec() -> bool {
        true
    }

    open spec fn from_spec(x: u64) -> Self {
        TinyFp::from_int(x as int)
    }
}

/// An element of the prime field of order 17, held as its canonical residue.
#[derive(Clone, Copy, Debug, PartialEq, Eq, Structural)]
pub struct ScalarField {
    v: u64,
}

impl ScalarField {
    /// Every value of the type holds a residue below the modulus.
    #[verifier::type_invariant]
    pub closed spec fn canon(self) -> bool {
        self.v < R
    }

    /// The residue as a natural number.
    pub closed spec fn val(self) -> nat {
        self.v as nat
    }

    /// The field element congruent to the integer `n`.
    pub closed spec fn from_int(n: int) -> Self {
        ScalarField { v: (n % (R as int)) as u64 }
    }

    pub open spec fn szero() -> Self {
        Self::from_int(0)
    }

    pub open spec fn sone() -> Self {
        Self::from_int(1)
    }

    pub open spec fn sadd(self, o: Self) -> Self {
        Self::from_int((self.val() + o.val()) as int)
    }

    pub open spec fn ssub(self, o: Self) -> Self {
        Self::from_int(self.val() - o.val())
    }

    pub open spec fn sneg(self) -> Self {
        Self::from_int(-(self.val() as int))
    }

    pub open spec fn smul(self, o: Self) -> Self {
        Self::from_int((self.val() * o.val()) as int)
    }

    /// The multiplicative inverse (meaningful for non-zero elements).
    pub open spec fn sinv(self) -> Self {
        Self::from_int(inv_mod(self.val(), R as nat) as int)
    }

    pub broadcast proof fn lemma_from_int_val(n: int)
        ensures
            #[trigger] Self::from_int(n).val() == n % (R as int),
            Self::from_int(n).canon(),
    {
    }

    pub broadcast proof fn lemma_val_eq(a: Self, b: Self)
        requires
            #[trigger] a.val() == #[trigger] b.val(),
        ensures
            a == b,
    {
    }

    pub broadcast proof fn lemma_canon_val(a: Self)
        ensures
            #[trigger] a.canon() <==> a.val() < R,
    {
    }

    /// The residue is held in 64 bits.
    pub proof fn lemma_val_bound(x: Self)
        ensures
            x.val() < 0x10000000000000000,
    {
    }

    pub broadcast group group_scalar_field {
        ScalarField::lemma_from_int_val,
        ScalarField::lemma_canon_val,
    }

    /// `a - (a / d) * d == 0` for non-zero `d`.
    pub proof fn lemma_cancel(a: Self, d: Self)
        requires
            d.val() % (R as nat) != 0,
        ensures
            a.ssub(a.smul(d.sinv()).smul(d)) == Self::szero(),
    {
        let p = R as int;
        lemma_prime_17();
        lemma_inverse_exists(d.val(), R as nat);
        let i = inv_mod(d.val(), R as nat) as int;
        let (ai, di) = (a.val() as int, d.val() as int);
        assert(d.sinv().val() == i % p);
        lemma_small_mod(i as nat, R as nat);
        let x = a.smul(d.sinv()).smul(d);
        lemma_mul_mod_noop_left(ai * i, di, p);
        assert(x.val() == ((ai * i) * di) % p);
        assert((ai * i) * di == ai * (di * i)) by (nonlinear_arith);
        lemma_mul_mod_noop_right(ai, di * i, p);
        assert((di * i) % p == 1);
        assert(x.val() == ai % p);
        lemma_sub_mod_noop(ai, ai, p);
        assert(a.ssub(x).val() == (ai - ai % p) % p);
        lemma_mod_twice(ai, p);
        lemma_sub_mod_noop(ai, ai % p, p);
        assert(a.ssub(x).val() == 0);
        Self::lemma_val_eq(a.ssub(x), Self::szero());
    }

    /// Integers congruent modulo the order give the same element.
    pub proof fn lemma_from_int_congruent(a: int, b: int)
        requires
            (a - b) % (R as int) == 0,
        ensures
            Self::from_int(a) == Self::from_int(b),
    {
        lemma_mod_equivalence(a, b, R as int);
        Self::lemma_val_eq(Self::from_int(a), Self::from_int(b));
    }

    /// A canonical element is the image of its residue.
    pub proof fn lemma_from_val(x: Self)
        requires
            x.canon(),
        ensures
            Self::from_int(x.val() as int) == x,
    {
        lemma_small_mod(x.val(), R as nat);
        Self::lemma_val_eq(Self::from_int(x.val() as int), x);
    }

    /// The operations on images of integers are the images of the integer operations.
    pub proof fn lemma_from_int_ops(a: int, b: int)
        ensures
            Self::from_int(a).sadd(Self::from_int(b)) == Self::from_int(a + b),
            Self::from_int(a).ssub(Self::from_int(b)) == Self::from_int(a - b),
            Self::from_int(a).smul(Self::from_int(b)) == Self::from_int(a * b),
            Self::from_int(a).sneg() == Self::from_int(-a),
            Self::from_int(a).sinv() == Self::from_int(inv_mod((a % (R as int)) as nat, R as nat) as int),
    {
        let m = R as int;
        lemma_add_mod_noop(a, b, m);
        lemma_sub_mod_noop(a, b, m);
        lemma_mul_mod_noop(a, b, m);
        lemma_sub_mod_noop(0, a, m);
        lemma_small_mod(0, R as nat);
        Self::lemma_from_int_congruent(a % m + b % m, a + b);
        Self::lemma_from_int_congruent(a % m - b % m, a - b);
        Self::lemma_from_int_congruent((a % m) * (b % m), a * b);
        Self::lemma_from_int_congruent(-(a % m), -a);
    }

    /// `x * x^-1 == 1` for non-zero `x`.
    pub proof fn lemma_inv_cancel(x: Self)
        requires
            x.val() % (R as nat) != 0,
        ensures
            x.smul(x.sinv()) == Self::sone(),
    {
        lemma_prime_17();
        lemma_inverse_exists(x.val(), R as nat);
        let i = inv_mod(x.val(), R as nat);
        lemma_small_mod(i, R as nat);
        Self::lemma_val_eq(x.smul(x.sinv()), Self::sone());
    }

    /// Multiplication commutes, and one is its identity on canonical elements.
    pub proof fn lemma_mul_comm_one(a: Self, b: Self)
        ensures
            a.smul(b) == b.smul(a),
            a.canon() ==> a.smul(Self::sone()) == a && Self::sone().smul(a) == a,
    {
        assert(a.val() * b.val() == b.val() * a.val()) by (nonlinear_arith);
        lemma_small_mod(1, R as nat);
        if a.canon() {
            lemma_small_mod(a.val(), R as nat);
            assert(Self::sone().val() == 1);
            assert(a.val() * 1 == a.val());
            assert(a.smul(Self::sone()).val() == a.val());
            assert(Self::sone().smul(a).val() == a.val());
            Self::lemma_val_eq(a.smul(Self::sone()), a);
            Self::lemma_val_eq(Self::sone().smul(a), a);
        }
    }

    /// Multiplication is associative, and adding `0 - b` is subtracting `b`.
    pub proof fn lemma_mul_assoc_sub(a: Self, b: Self, c: Self)
        ensures
            a.smul(b.smul(c)) == a.smul(b).smul(c),
            a.sadd(Self::szero().ssub(b)) == a.ssub(b),
    {
        let m = R as int;
        let (x, y, z) = (a.val() as int, b.val() as int, c.val() as int);
        lemma_mul_mod_noop_right(x, y * z, m);
        lemma_mul_mod_noop_left(x * y, z, m);
        assert(x * (y * z) == (x * y) * z) by (nonlinear_arith);
        Self::lemma_val_eq(a.smul(b.smul(c)), a.smul(b).smul(c));
        lemma_small_mod(0, R as nat);
        lemma_add_mod_noop_right(x, 0 - y, m);
        Self::lemma_val_eq(a.sadd(Self::szero().ssub(b)), a.ssub(b));
    }

    pub fn zero() -> (r: Self)
        ensures
            r == Self::szero(),
            r.val() == 0,
    {
        ScalarField { v: 0 }
    }

    pub fn one() -> (r: Self)
        ensures
            r == Self::sone(),
            r.val() == 1,
    {
        ScalarField { v: 1 }
    }

    /// The residue of `x`.
    pub fn from_u64(x: u64) -> (r: Self)
        ensures
            r == Self::from_int(x as int),
            r.val() == x % R,
    {
        ScalarField { v: x % R }
    }

    /// The canonical residue as an integer.
    pub fn value(&self) -> (r: u64)
        ensures
            r == self.val(),
            r < R,
    {
        proof {
            use_type_invariant(self);
        }
        self.v
    }

    pub fn is_zero(&self) -> (r: bool)
        ensures
            r == (self.val() == 0),
            r == (*self == Self::szero()),
    {
        proof {
            use_type_invariant(self);
        }
        self.v == 0
    }

    pub fn add(&self, o: &Self) -> (r: Self)
        ensures
            r == self.sadd(*o),
    {
        proof {
            use_type_invariant(self);
            use_type_invariant(o);
        }
        ScalarField { v: (self.v + o.v) % R }
    }

    pub fn sub(&self, o: &Self) -> (r: Self)
        ensures
            r == self.ssub(*o),
    {
        proof {
            use_type_invariant(self);
            use_type_invariant(o);
            lemma_mod_add_multiples_vanish(self.v - o.v, R as int);
        }
        ScalarField { v: (self.v + R - o.v) % R }
    }

    pub fn neg(&self) -> (r: Self)
        ensures
            r == self.sneg(),
    {
        proof {
            use_type_invariant(self);
            lemma_mod_add_multiples_vanish(-(self.v as int), R as int);
        }
        ScalarField { v: (R - self.v) % R }
    }

    pub fn mul(&self, o: &Self) -> (r: Self)
        ensures
            r == self.smul(*o),
    {
        proof {
            use_type_invariant(self);
            use_type_invariant(o);
            assert(self.v * o.v < R * R) by (nonlinear_arith)
                requires
                    self.v < R,
                    o.v < R,
            ;
        }
        ScalarField { v: (self.v * o.v) % R }
    }

    pub fn square(&self) -> (r: Self)
        ensures
            r == self.smul(*self),
    {
        self.mul(self)
    }

    /// The multiplicative inverse: `None` exactly for zero.
    pub fn inverse(&self) -> (r: Option<Self>)
        ensures
            self.val() == 0 ==> r is None,
            self.val() != 0 ==> r == Some(self.sinv()),
    {
        proof {
            use_type_invariant(self);
        }
        if self.v == 0 {
            return None;
        }
        let a = self.v;
        proof {
            lemma_prime_17();
            lemma_small_mod(a as nat, R as nat);
            lemma_inverse_exists(a as nat, R as nat);
        }
        let mut x: u64 = 1;
        while x < R
            invariant
                1 <= x <= R,
                0 < a < R,
                a == self.val(),
                has_inv_mod(a as nat, R as nat),
                forall|y: nat| y < x ==> #[trigger] (((a as nat) * y) % (R as nat)) != 1,
            decreases R - x,
        {
            assert(a * x < R * R) by (nonlinear_arith)
                requires
                    a < R,
                    x < R,
            ;
            if (a * x) % R == 1 {
                proof {
                    lemma_prime_17();
                    lemma_inverse_unique(a as nat, x as nat, R as nat);
                }
                return Some(ScalarField { v: x });
            }
            x = x + 1;
        }
        proof {
            let y = choose|y: nat| y < R && #[trigger] (((a as nat) * y) % (R as nat)) == 1;
            assert(((a as nat) * y) % (R as nat) == 1);
        }
        None
    }

    /// Field division; the divisor must be non-zero.
    pub fn div(&self, o: &Self) -> (r: Self)
        requires
            o.val() != 0,
        ensures
            r == self.smul(o.sinv()),
    {
        let i = o.inverse().unwrap();
        self.mul(&i)
    }
}

impl From<u64> for ScalarField {
    fn from(x: u64) -> (r: Self) {
        ScalarField::from_u64(x)
    }
}

impl vstd::std_specs::convert::FromSpecImpl<u64> for ScalarField {
    open spec fn obeys_from_spec() -> bool {
        true
    }

    open spec fn from_spec(x: u64) -> Self {
        ScalarField::from_int(x as int)
    }
}

} // verus!
