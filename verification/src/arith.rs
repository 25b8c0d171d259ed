//! Modular arithmetic over the natural numbers: primality of the two moduli used by the
//! library, Bezout's identity and the existence and uniqueness of modular inverses.
use vstd::arithmetic::div_mod::*;
use vstd::arithmetic::mul::*;
use vstd::prelude::*;

verus! {

/// `p` is a prime number.
pub open spec fn is_prime(p: nat) -> bool {
    &&& p > 1
    &&& forall|d: nat| 1 < d < p ==> #[trigger] (p % d) != 0
}

/// The inverse of `a` modulo `p`, by the extended Euclidean algorithm: for a prime `p`
/// and `a` not divisible by `p`, the unique residue `x < p` with `a * x == 1 (mod p)`.
pub open spec fn inv_mod(a: nat, p: nat) -> nat {
    (egcd(a % p, p).1 % (p as int)) as nat
}

/// `a` has an inverse modulo `p`.
pub open spec fn has_inv_mod(a: nat, p: nat) -> bool {
    exists|x: nat| x < p && #[trigger] ((a * x) % p) == 1
}

/// Extended Euclid: `(g, x, y)` with `g = gcd(a, b)` and `a * x + b * y == g`.
pub open spec fn egcd(a: nat, b: nat) -> (nat, int, int)
    decreases b,
{
    if b == 0 {
        (a, 1, 0)
    } else {
        let (g, x, y) = egcd(b, a % b);
        (g, y, x - (a / b) as int * y)
    }
}

pub proof fn lemma_prime_101()
    ensures
        is_prime(101),
{
    assert(forall|d: u8| 1 < d && d < 101 ==> #[trigger] (101u8 % d) != 0) by (bit_vector);
    assert forall|d: nat| 1 < d < 101 implies #[trigger] (101nat % d) != 0 by {
        let e = d as u8;
        assert(e as nat == d);
        assert(101u8 % e != 0);
    }
}

pub proof fn lemma_prime_17()
    ensures
        is_prime(17),
{
    assert(forall|d: u8| 1 < d && d < 17 ==> #[trigger] (17u8 % d) != 0) by (bit_vector);
    assert forall|d: nat| 1 < d < 17 implies #[trigger] (17nat % d) != 0 by {
        let e = d as u8;
        assert(e as nat == d);
        assert(17u8 % e != 0);
    }
}

proof fn lemma_bezout(a: nat, b: nat)
    ensures
        a * egcd(a, b).1 + b * egcd(a, b).2 == egcd(a, b).0,
    decreases b,
{
    if b > 0 {
        lemma_bezout(b, a % b);
        let (g, x, y) = egcd(b, a % b);
        let q = (a / b) as int;
        let r = (a % b) as int;
        lemma_fundamental_div_mod(a as int, b as int);
        assert(egcd(a, b) == (g, y, x - q * y));
        assert(b * x + r * y == g);
        assert(a == b * q + r);
        assert(a * y + b * (x - q * y) == g) by (nonlinear_arith)
            requires
                b * x + r * y == g,
                a == b * q + r,
        ;
    } else {
        assert(egcd(a, b) == (a, 1int, 0int));
        assert(a * 1int + b * 0int == a) by (nonlinear_arith);
    }
}

proof fn lemma_egcd_positive(a: nat, b: nat)
    requires
        a > 0 || b > 0,
    ensures
        egcd(a, b).0 > 0,
    decreases b,
{
    if b > 0 {
        lemma_egcd_positive(b, a % b);
    }
}

proof fn lemma_egcd_divides(a: nat, b: nat)
    requires
        a > 0 || b > 0,
    ensures
        a % egcd(a, b).0 == 0,
        b % egcd(a, b).0 == 0,
    decreases b,
{
    lemma_egcd_positive(a, b);
    let g = egcd(a, b).0;
    if b == 0 {
        lemma_mod_self_0(a as int);
    } else {
        lemma_egcd_divides(b, a % b);
        assert(g == egcd(b, a % b).0);
        let q = a / b;
        let r = a % b;
        lemma_fundamental_div_mod(a as int, b as int);
        lemma_mul_mod_noop_left(b as int, q as int, g as int);
        lemma_small_mod(0, g);
        assert((b * q) % g == 0) by {
            assert(b % g == 0);
            assert((b % g) * q == 0);
        }
        lemma_add_mod_noop((b * q) as int, r as int, g as int);
        assert(r % g == 0);
        assert(a == b * q + r);
        assert((b * q + r) % g == 0);
    }
}

/// A divisor of a positive number is not larger than it.
proof fn lemma_divisor_le(n: nat, d: nat)
    requires
        n > 0,
        d > 0,
        n % d == 0,
    ensures
        d <= n,
{
    if d > n {
        lemma_small_mod(n, d);
    }
}

/// Every residue that is not zero modulo a prime has an inverse.
pub proof fn lemma_inverse_exists(a: nat, p: nat)
    requires
        is_prime(p),
        a % p != 0,
    ensures
        has_inv_mod(a, p),
        inv_mod(a, p) < p,
        (a * inv_mod(a, p)) % p == 1,
{
    let a1 = a % p;
    lemma_mod_bound(a as int, p as int);
    lemma_egcd_positive(a1, p);
    lemma_egcd_divides(a1, p);
    let (g, x, y) = egcd(a1, p);
    lemma_divisor_le(p, g);
    lemma_divisor_le(a1, g);
    assert(g == 1) by {
        if g != 1 {
            assert(p % g != 0);
        }
    }
    lemma_bezout(a1, p);
    assert(a1 * x + p * y == 1);
    lemma_mod_multiples_vanish(y, a1 * x, p as int);
    assert((a1 * x) % (p as int) == 1) by {
        lemma_small_mod(1, p);
        assert((p * y + a1 * x) % (p as int) == 1int % (p as int));
    }
    let x0 = (x % (p as int)) as nat;
    lemma_mul_mod_noop_right(a1 as int, x, p as int);
    lemma_mul_mod_noop_left(a as int, x0 as int, p as int);
    assert((a * x0) % p == 1);
    assert(x0 < p);
    assert(has_inv_mod(a, p));
}

/// In a prime modulus the inverse is unique: any residue `x < p` with `a * x == 1 (mod p)`
/// is `inv_mod(a, p)`.
pub proof fn lemma_inverse_unique(a: nat, x: nat, p: nat)
    requires
        is_prime(p),
        x < p,
        (a * x) % p == 1,
    ensures
        x == inv_mod(a, p),
{
    assert(a % p != 0) by {
        if a % p == 0 {
            lemma_mul_mod_noop_left(a as int, x as int, p as int);
            assert((a % p) * x == 0);
            lemma_small_mod(0, p);
        }
    }
    lemma_inverse_exists(a, p);
    let y = inv_mod(a, p);
    // x == x * (a * y) == (a * x) * y == y (mod p)
    lemma_mul_mod_noop_right(x as int, (a * y) as int, p as int);
    assert((x * (a * y)) % p == x % p);
    lemma_mul_is_associative(x as int, a as int, y as int);
    lemma_mul_is_commutative(x as int, a as int);
    assert(x * (a * y) == (a * x) * y) by (nonlinear_arith);
    lemma_mul_mod_noop_left((a * x) as int, y as int, p as int);
    assert(((a * x) * y) % p == y % p);
    lemma_small_mod(x, p);
    lemma_small_mod(y, p);
}

/// A product of residues is zero modulo a prime only when a factor is.
pub proof fn lemma_no_zero_divisors(a: nat, b: nat, p: nat)
    requires
        is_prime(p),
        a % p != 0,
        b % p != 0,
    ensures
        (a * b) % p != 0,
{
    if (a * b) % p == 0 {
        lemma_inverse_exists(a, p);
        let y = inv_mod(a, p);
        // b == (y * a) * b == y * (a * b) == 0 (mod p)
        lemma_mul_mod_noop_right(y as int, (a * b) as int, p as int);
        assert((y * (a * b)) % p == 0) by {
            assert(y * ((a * b) % p) == 0);
            lemma_small_mod(0, p);
        }
        assert(y * (a * b) == (a * y) * b) by (nonlinear_arith);
        lemma_mul_mod_noop_left((a * y) as int, b as int, p as int);
        assert(((a * y) * b) % p == b % p);
    }
}

} // verus!
