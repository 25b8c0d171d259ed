//! A forged Groth16 proof on BN254 for a verifying key made without a trusted setup, where
//! `gamma` and `delta` coincide: for the public input `c`, the proof `A = alpha`,
//! `B = beta`, `C = -(IC[0] + c * IC[1])` passes the verification equation without any
//! witness.  This module reads the points of the key, checks them, and computes `C`.
use ark_bn254::{Fq, Fr, G1Affine};
use ark_ec::{AffineRepr, CurveGroup, Group};
use ark_ff::{BigInt, PrimeField};
use serde_json::Value;
use crate::arith::inv_mod;
use vstd::arithmetic::div_mod::*;
use vstd::prelude::*;

verus! {

/// The modulus `q` of the base field of BN254.
pub open spec fn fq_modulus() -> int {
    21888242871839275222246405745257275088696311157297823662689037894645226208583int
}

/// `2^64`, the base of the limbs.
pub open spec fn limb_base() -> int {
    18446744073709551616int
}

/// The integer held by four little-endian 64-bit limbs.
pub open spec fn limbs_value(l: [u64; 4]) -> int {
    l[0] + limb_base() * (l[1] + limb_base() * (l[2] + limb_base() * l[3]))
}

/// The four little-endian 64-bit limbs of `n`, for `0 <= n < 2^256`.
pub open spec fn limbs_of(n: int) -> [u64; 4] {
    let b = limb_base();
    let q1 = n / b;
    let q2 = q1 / b;
    let q3 = q2 / b;
    [(n % b) as u64, (q1 % b) as u64, (q2 % b) as u64, (q3 % b) as u64]
}

/// The limbs of a residue modulo `q` give it back.
pub proof fn lemma_limbs_roundtrip(n: int)
    requires
        0 <= n < fq_modulus(),
    ensures
        limbs_value(limbs_of(n)) == n,
{
    let b = limb_base();
    let q1 = n / b;
    let q2 = q1 / b;
    let q3 = q2 / b;
    lemma_fundamental_div_mod(n, b);
    lemma_fundamental_div_mod(q1, b);
    lemma_fundamental_div_mod(q2, b);
    lemma_mod_bound(n, b);
    lemma_mod_bound(q1, b);
    lemma_mod_bound(q2, b);
    lemma_div_pos_is_pos(n, b);
    lemma_div_pos_is_pos(q1, b);
    lemma_div_pos_is_pos(q2, b);
    assert(q3 < b) by (nonlinear_arith)
        requires
            n == b * q1 + n % b,
            q1 == b * q2 + q1 % b,
            q2 == b * q3 + q2 % b,
            0 <= n % b,
            0 <= q1 % b,
            0 <= q2 % b,
            0 <= q3,
            n < fq_modulus(),
            b == limb_base(),
    ;
    lemma_small_mod(q3 as nat, b as nat);
    let l = limbs_of(n);
    assert(l[0] == n % b && l[1] == q1 % b && l[2] == q2 % b && l[3] == q3);
}

/// An ASCII decimal digit.
pub open spec fn is_digit(c: char) -> bool {
    '0' <= c && c <= '9'
}

/// A decimal numeral as the base field's parser takes it: non-empty, digits only, and no
/// leading zero unless it is `"0"` itself.
pub open spec fn is_decimal_literal(s: Seq<char>) -> bool {
    &&& s.len() > 0
    &&& forall|i: int| 0 <= i < s.len() ==> is_digit(#[trigger] s[i])
    &&& (s[0] != '0' || s.len() == 1)
}

/// The value of a string of decimal digits.
pub open spec fn decimal_value(s: Seq<char>) -> int
    decreases s.len(),
{
    if s.len() == 0 {
        0
    } else {
        decimal_value(s.drop_last()) * 10 + (s.last() as int - 48)
    }
}

/// The digit character of `0 <= d < 10`.
pub open spec fn digit_char(d: nat) -> char {
    (d + 48) as char
}

/// The decimal numeral of `n`, without leading zeros.
pub open spec fn decimal_digits(n: nat) -> Seq<char>
    decreases n,
{
    if n < 10 {
        seq![digit_char(n)]
    } else {
        decimal_digits(n / 10).push(digit_char(n % 10))
    }
}

/// A point of the BN254 curve `y^2 = x^3 + 3` over its base field, in affine coordinates,
/// each coordinate held as the limbs of its canonical residue.  The point at infinity has
/// `infinity` set (and zero coordinates when it comes out of a group operation).
#[derive(Clone, Copy, Debug)]
pub struct Bn254G1 {
    pub x: [u64; 4],
    pub y: [u64; 4],
    pub infinity: bool,
}

impl Bn254G1 {
    pub open spec fn xv(self) -> int {
        limbs_value(self.x)
    }

    pub open spec fn yv(self) -> int {
        limbs_value(self.y)
    }

    /// Both coordinates are canonical residues.
    pub open spec fn wf(self) -> bool {
        self.xv() < fq_modulus() && self.yv() < fq_modulus()
    }

    /// `y^2 == x^3 + 3 (mod q)`; the point at infinity is on the curve.
    pub open spec fn on_curve(self) -> bool {
        self.infinity || (self.yv() * self.yv()) % fq_modulus() == (self.xv() * self.xv()
            * self.xv() + 3) % fq_modulus()
    }

    /// `-(x, y) = (x, -y)`; the point at infinity is its own negation.
    pub open spec fn sneg(self) -> Bn254G1 {
        if self.infinity {
            Bn254G1 { x: limbs_of(0), y: limbs_of(0), infinity: true }
        } else {
            Bn254G1 {
                x: self.x,
                y: limbs_of((fq_modulus() - self.yv()) % fq_modulus()),
                infinity: false,
            }
        }
    }
}

/// The point at infinity in the affine form that `ark_ec` gives it: zero coordinates.
pub open spec fn g1_identity() -> Bn254G1 {
    Bn254G1 { x: limbs_of(0), y: limbs_of(0), infinity: true }
}

/// `a / b` in the base field.
pub open spec fn fq_div(a: int, b: int) -> int {
    (a * (inv_mod((b % fq_modulus()) as nat, fq_modulus() as nat) as int)) % fq_modulus()
}

/// The affine point with the residues of `x` and `y` as coordinates.
pub open spec fn fq_point(x: int, y: int) -> Bn254G1 {
    Bn254G1 { x: limbs_of(x % fq_modulus()), y: limbs_of(y % fq_modulus()), infinity: false }
}

/// The sum of two points of `y^2 = x^3 + 3` over the base field by the chord-and-tangent law.
pub open spec fn g1_sum(a: Bn254G1, b: Bn254G1) -> Bn254G1 {
    let q = fq_modulus();
    if a.infinity {
        if b.infinity {
            g1_identity()
        } else {
            b
        }
    } else if b.infinity {
        a
    } else if a.xv() == b.xv() {
        if a.yv() == b.yv() && a.yv() != 0 {
            let l = fq_div(3 * a.xv() * a.xv(), 2 * a.yv());
            let x3 = (l * l - 2 * a.xv()) % q;
            fq_point(x3, l * (a.xv() - x3) - a.yv())
        } else {
            g1_identity()
        }
    } else {
        let l = fq_div(b.yv() - a.yv(), b.xv() - a.xv());
        let x3 = (l * l - a.xv() - b.xv()) % q;
        fq_point(x3, l * (a.xv() - x3) - a.yv())
    }
}

/// `n * p`: the sum of `n` copies of `p`.
pub open spec fn g1_multiple(p: Bn254G1, n: nat) -> Bn254G1
    decreases n,
{
    if n == 0 {
        g1_identity()
    } else {
        g1_sum(g1_multiple(p, (n - 1) as nat), p)
    }
}

/// Why a verifying key cannot be used.
#[derive(Clone, Copy, Debug, PartialEq, Eq, Structural)]
pub enum ForgeError {
    PointTooShort,
    XNotString,
    YNotString,
    InvalidX,
    InvalidY,
    NotOnCurve,
    MissingAlpha,
    MissingIc,
    IcTooShort,
    InvalidIc0,
    InvalidIc1,
    InvalidJson,
}

impl ForgeError {
    pub open spec fn smessage(self) -> Seq<char> {
        match self {
            ForgeError::PointTooShort => "invalid G1 point: expected at least [x, y]"@,
            ForgeError::XNotString => "invalid G1 x coordinate: expected decimal string"@,
            ForgeError::YNotString => "invalid G1 y coordinate: expected decimal string"@,
            ForgeError::InvalidX => "invalid G1 x field element"@,
            ForgeError::InvalidY => "invalid G1 y field element"@,
            ForgeError::NotOnCurve => "invalid G1 point: not on curve"@,
            ForgeError::MissingAlpha => "missing vk_alpha_1 array"@,
            ForgeError::MissingIc => "missing IC array"@,
            ForgeError::IcTooShort => "IC must contain at least IC[0], IC[1]"@,
            ForgeError::InvalidIc0 => "invalid IC[0]"@,
            ForgeError::InvalidIc1 => "invalid IC[1]"@,
            ForgeError::InvalidJson => "invalid verifying key: not JSON"@,
        }
    }

    /// The message that reports the error.
    pub fn message(&self) -> (r: &'static str)
        ensures
            r@ == self.smessage(),
    {
        match self {
            ForgeError::PointTooShort => "invalid G1 point: expected at least [x, y]",
            ForgeError::XNotString => "invalid G1 x coordinate: expected decimal string",
            ForgeError::YNotString => "invalid G1 y coordinate: expected decimal string",
            ForgeError::InvalidX => "invalid G1 x field element",
            ForgeError::InvalidY => "invalid G1 y field element",
            ForgeError::NotOnCurve => "invalid G1 point: not on curve",
            ForgeError::MissingAlpha => "missing vk_alpha_1 array",
            ForgeError::MissingIc => "missing IC array",
            ForgeError::IcTooShort => "IC must contain at least IC[0], IC[1]",
            ForgeError::InvalidIc0 => "invalid IC[0]",
            ForgeError::InvalidIc1 => "invalid IC[1]",
            ForgeError::InvalidJson => "invalid verifying key: not JSON",
        }
    }
}

/// `Fq::from_str` of `ark_ff` (the base field of `ark_bn254`), converted to the limbs of
/// the element's canonical residue.  It accepts exactly the decimal numerals without
/// leading zeros and reduces their value modulo `q`.
#[verifier::external_body]
fn fq_from_decimal(s: &str) -> (r: Option<[u64; 4]>)
    ensures
        r is Some <==> is_decimal_literal(s@),
        r is Some ==> r.unwrap() == limbs_of(decimal_value(s@) % fq_modulus()),
{
    match <Fq as std::str::FromStr>::from_str(s) {
        Ok(f) => Some(f.into_bigint().0),
        Err(_) => None,
    }
}

/// `G1Affine::is_on_curve` of `ark_bn254` on the point with the given coordinates: the
/// point at infinity, or `y^2 == x^3 + 3` in the base field.
#[verifier::external_body]
fn g1_is_on_curve(p: &Bn254G1) -> (r: bool)
    requires
        p.wf(),
    ensures
        r == p.on_curve(),
{
    let a = G1Affine { x: Fq::from(BigInt::new(p.x)), y: Fq::from(BigInt::new(p.y)), infinity: p.infinity };
    a.is_on_curve()
}

/// The sum of two points of the curve by `ark_ec` (`into_group`, `+`, `into_affine`): the
/// group law, which on affine points is the chord-and-tangent law, with the result in
/// canonical affine form (zero coordinates for the point at infinity).
#[verifier::external_body]
fn g1_add(a: &Bn254G1, b: &Bn254G1) -> (r: Bn254G1)
    requires
        a.wf(),
        b.wf(),
        a.on_curve(),
        b.on_curve(),
    ensures
        r == g1_sum(*a, *b),
        r.wf(),
        r.on_curve(),
{
    let pa = G1Affine { x: Fq::from(BigInt::new(a.x)), y: Fq::from(BigInt::new(a.y)), infinity: a.infinity };
    let pb = G1Affine { x: Fq::from(BigInt::new(b.x)), y: Fq::from(BigInt::new(b.y)), infinity: b.infinity };
    let s = (pa.into_group() + pb.into_group()).into_affine();
    Bn254G1 { x: s.x.into_bigint().0, y: s.y.into_bigint().0, infinity: s.infinity }
}

/// `Group::mul_bigint` of `ark_ec` by the integer with limbs `k` (`into_group`,
/// `mul_bigint`, `into_affine`): the multiple `k * p` in the group of the curve, in
/// canonical affine form.
#[verifier::external_body]
fn g1_mul(p: &Bn254G1, k: [u64; 4]) -> (r: Bn254G1)
    requires
        p.wf(),
        p.on_curve(),
    ensures
        r == g1_multiple(*p, limbs_value(k) as nat),
        r.wf(),
        r.on_curve(),
{
    let a = G1Affine { x: Fq::from(BigInt::new(p.x)), y: Fq::from(BigInt::new(p.y)), infinity: p.infinity };
    let s = a.into_group().mul_bigint(BigInt::new(k)).into_affine();
    Bn254G1 { x: s.x.into_bigint().0, y: s.y.into_bigint().0, infinity: s.infinity }
}

/// Negation by `ark_ec` (`into_group`, `-`, `into_affine`): `(x, y)` goes to `(x, q - y)`
/// reduced, and the point at infinity to itself with zero coordinates.
#[verifier::external_body]
fn g1_neg(p: &Bn254G1) -> (r: Bn254G1)
    requires
        p.wf(),
    ensures
        r == p.sneg(),
{
    let a = G1Affine { x: Fq::from(BigInt::new(p.x)), y: Fq::from(BigInt::new(p.y)), infinity: p.infinity };
    let s = (-a.into_group()).into_affine();
    Bn254G1 { x: s.x.into_bigint().0, y: s.y.into_bigint().0, infinity: s.infinity }
}

/// `Fr::from(c).into_bigint()` of `ark_bn254`: every `u64` is below the scalar modulus,
/// so its limbs are `[c, 0, 0, 0]`.
#[verifier::external_body]
fn fr_limbs_of_u64(c: u64) -> (r: [u64; 4])
    ensures
        r == limbs_of(c as int),
{
    Fr::from(c).into_bigint().0
}

/// The `Display` of `ark_ff::BigInt` (through `num_bigint::BigUint`): the decimal numeral
/// of the limbs' value, without leading zeros.
#[verifier::external_body]
fn limbs_to_decimal(l: [u64; 4]) -> (r: String)
    ensures
        r@ == decimal_digits(limbs_value(l) as nat),
{
    BigInt::new(l).to_string()
}

/// The point that `parse_g1` reads from the coordinate list `coords`, or the first error.
pub open spec fn sparse_g1(coords: Seq<Option<String>>) -> Result<Bn254G1, ForgeError> {
    if coords.len() < 2 {
        Err(ForgeError::PointTooShort)
    } else if coords[0] is None {
        Err(ForgeError::XNotString)
    } else if coords[1] is None {
        Err(ForgeError::YNotString)
    } else if !is_decimal_literal(coords[0].unwrap()@) {
        Err(ForgeError::InvalidX)
    } else if !is_decimal_literal(coords[1].unwrap()@) {
        Err(ForgeError::InvalidY)
    } else {
        let p = Bn254G1 {
            x: limbs_of(decimal_value(coords[0].unwrap()@) % fq_modulus()),
            y: limbs_of(decimal_value(coords[1].unwrap()@) % fq_modulus()),
            infinity: false,
        };
        if p.on_curve() {
            Ok(p)
        } else {
            Err(ForgeError::NotOnCurve)
        }
    }
}

/// Reads a G1 point from its JSON coordinate list (each entry `Some` exactly when it is a
/// string): at least two entries, decimal numerals for `x` and `y`, and a point on the
/// curve.
pub fn parse_g1(coords: &[Option<String>]) -> (r: Result<Bn254G1, ForgeError>)
    ensures
        r == sparse_g1(coords@),
        r is Ok ==> r.unwrap().wf(),
{
    if coords.len() < 2 {
        return Err(ForgeError::PointTooShort);
    }
    let x = match &coords[0] {
        Some(s) => s,
        None => {
            return Err(ForgeError::XNotString);
        },
    };
    let y = match &coords[1] {
        Some(s) => s,
        None => {
            return Err(ForgeError::YNotString);
        },
    };
    let xl = match fq_from_decimal(x.as_str()) {
        Some(l) => l,
        None => {
            return Err(ForgeError::InvalidX);
        },
    };
    let yl = match fq_from_decimal(y.as_str()) {
        Some(l) => l,
        None => {
            return Err(ForgeError::InvalidY);
        },
    };
    let p = Bn254G1 { x: xl, y: yl, infinity: false };
    proof {
        lemma_limbs_roundtrip(decimal_value(x@) % fq_modulus());
        lemma_limbs_roundtrip(decimal_value(y@) % fq_modulus());
    }
    if !g1_is_on_curve(&p) {
        return Err(ForgeError::NotOnCurve);
    }
    Ok(p)
}

/// The coordinates of a point as a verifying key writes them: `[x, y, "1"]` in decimal.
pub fn point_to_vk_json(point: &Bn254G1) -> (r: Vec<String>)
    ensures
        r@.len() == 3,
        r@[0]@ == decimal_digits(point.xv() as nat),
        r@[1]@ == decimal_digits(point.yv() as nat),
        r@[2]@ == "1"@,
{
    let mut r: Vec<String> = Vec::new();
    r.push(limbs_to_decimal(point.x));
    r.push(limbs_to_decimal(point.y));
    r.push(String::from_str("1"));
    r
}

/// The parts of a verifying key that the forgery reads, as the JSON held them: a list is
/// `Some` exactly when it was an array, a coordinate exactly when it was a string.
pub struct VkFields {
    pub alpha: Option<Vec<Option<String>>>,
    pub ic: Option<Vec<Option<Vec<Option<String>>>>>,
}

/// The forged proof's points in G1: `A` and `C` (`B` is the key's `beta` unchanged).
#[derive(Clone, Copy, Debug)]
pub struct Forgery {
    pub a: Bn254G1,
    pub c: Bn254G1,
}

/// `C = -(IC[0] + c * IC[1])`.
pub open spec fn sforged_c(ic0: Bn254G1, ic1: Bn254G1, c: u64) -> Bn254G1 {
    g1_sum(ic0, g1_multiple(ic1, c as nat)).sneg()
}

impl VkFields {
    /// The coordinate list of `alpha`, each coordinate as the string it holds.
    pub open spec fn alpha_view(self) -> Option<Seq<Option<String>>> {
        match self.alpha {
            Some(a) => Some(a@),
            None => None,
        }
    }

    /// The coordinate lists of `IC`, each as the list it holds.
    pub open spec fn ic_view(self) -> Option<Seq<Option<Seq<Option<String>>>>> {
        match self.ic {
            Some(ic) => Some(ic@.map_values(|p: Option<Vec<Option<String>>>| match p {
                Some(v) => Some(v@),
                None => None,
            })),
            None => None,
        }
    }
}

/// The forgery for the public input `c` from the coordinate lists of `alpha` and `IC`, or
/// the first error met in reading them.
pub open spec fn sforge_parts(
    alpha: Option<Seq<Option<String>>>,
    ic: Option<Seq<Option<Seq<Option<String>>>>>,
    c: u64,
) -> Result<Forgery, ForgeError> {
    match alpha {
        None => Err(ForgeError::MissingAlpha),
        Some(alpha) => match ic {
            None => Err(ForgeError::MissingIc),
            Some(ic) => if ic.len() < 2 {
                Err(ForgeError::IcTooShort)
            } else if ic[0] is None {
                Err(ForgeError::InvalidIc0)
            } else if ic[1] is None {
                Err(ForgeError::InvalidIc1)
            } else {
                match sparse_g1(alpha) {
                    Err(e) => Err(e),
                    Ok(a) => match sparse_g1(ic[0].unwrap()) {
                        Err(e) => Err(e),
                        Ok(ic0) => match sparse_g1(ic[1].unwrap()) {
                            Err(e) => Err(e),
                            Ok(ic1) => Ok(Forgery { a, c: sforged_c(ic0, ic1, c) }),
                        },
                    },
                }
            },
        },
    }
}

/// The forgery for the public input `c`, or the first error met in reading the key.
pub open spec fn sforge(vk: VkFields, c: u64) -> Result<Forgery, ForgeError> {
    sforge_parts(vk.alpha_view(), vk.ic_view(), c)
}

/// A sum of canonical points is canonical.
proof fn lemma_g1_sum_wf(a: Bn254G1, b: Bn254G1)
    requires
        a.wf(),
        b.wf(),
    ensures
        g1_sum(a, b).wf(),
{
    let q = fq_modulus();
    lemma_limbs_roundtrip(0);
    let r = g1_sum(a, b);
    if !r.infinity {
        lemma_mod_bound(limbs_value(r.x), q);
        if !a.infinity && !b.infinity {
            let (x3, y3) = if a.xv() == b.xv() {
                let l = fq_div(3 * a.xv() * a.xv(), 2 * a.yv());
                let x3 = (l * l - 2 * a.xv()) % q;
                (x3, l * (a.xv() - x3) - a.yv())
            } else {
                let l = fq_div(b.yv() - a.yv(), b.xv() - a.xv());
                let x3 = (l * l - a.xv() - b.xv()) % q;
                (x3, l * (a.xv() - x3) - a.yv())
            };
            lemma_mod_bound(x3, q);
            lemma_mod_bound(y3, q);
            lemma_limbs_roundtrip(x3 % q);
            lemma_limbs_roundtrip(y3 % q);
        }
    }
}

/// A point plus its negation is the point at infinity: `-p + p == O`.
pub proof fn lemma_g1_neg_cancels(p: Bn254G1)
    requires
        p.wf(),
    ensures
        g1_sum(p.sneg(), p) == g1_identity(),
{
    let q = fq_modulus();
    if !p.infinity {
        let y = p.yv();
        lemma_mod_bound(q - y, q);
        lemma_limbs_roundtrip((q - y) % q);
        if y == 0 {
            lemma_mod_self_0(q);
        } else {
            lemma_small_mod((q - y) as nat, q as nat);
            assert((q - y) % q != y) by {
                if (q - y) % q == y {
                    assert(2 * y == q);
                }
            }
        }
    }
}

/// The forged `C` cancels `vk_x = IC[0] + c * IC[1]`: `C + vk_x == O`, so that with
/// `gamma == delta` the terms `e(vk_x, gamma)` and `e(C, delta)` of the verification equation
/// multiply to one and the equation reduces to `e(A, B) == e(alpha, beta)`.
pub proof fn lemma_forged_c_cancels(ic0: Bn254G1, ic1: Bn254G1, c: u64)
    requires
        ic0.wf(),
        ic1.wf(),
        ic0.on_curve(),
        ic1.on_curve(),
    ensures
        g1_sum(sforged_c(ic0, ic1, c), g1_sum(ic0, g1_multiple(ic1, c as nat))) == g1_identity(),
{
    lemma_g1_multiple_wf(ic1, c as nat);
    lemma_g1_sum_wf(ic0, g1_multiple(ic1, c as nat));
    lemma_g1_neg_cancels(g1_sum(ic0, g1_multiple(ic1, c as nat)));
}

/// A point read from a coordinate list is canonical and on the curve.
proof fn lemma_sparse_g1_valid(coords: Seq<Option<String>>)
    ensures
        sparse_g1(coords) is Ok ==> sparse_g1(coords).unwrap().wf() && sparse_g1(coords).unwrap().on_curve(),
{
    if sparse_g1(coords) is Ok {
        let q = fq_modulus();
        let xv = decimal_value(coords[0].unwrap()@) % q;
        let yv = decimal_value(coords[1].unwrap()@) % q;
        lemma_mod_bound(decimal_value(coords[0].unwrap()@), q);
        lemma_mod_bound(decimal_value(coords[1].unwrap()@), q);
        lemma_limbs_roundtrip(xv);
        lemma_limbs_roundtrip(yv);
    }
}

/// The forgery cancels the key's `vk_x`: whenever `forge` succeeds on a key, its `A` is the
/// key's `alpha` and its `C` plus `IC[0] + c * IC[1]` (the points read from the key's first
/// two `IC` entries) is the point at infinity.
pub proof fn lemma_forge_cancels_vk_x(vk: VkFields, c: u64)
    requires
        sforge(vk, c) is Ok,
    ensures
        ({
            let ic = vk.ic_view().unwrap();
            let ic0 = sparse_g1(ic[0].unwrap()).unwrap();
            let ic1 = sparse_g1(ic[1].unwrap()).unwrap();
            &&& sparse_g1(ic[0].unwrap()) is Ok
            &&& sparse_g1(ic[1].unwrap()) is Ok
            &&& sparse_g1(vk.alpha_view().unwrap()) == Ok::<Bn254G1, ForgeError>(sforge(vk, c).unwrap().a)
            &&& g1_sum(sforge(vk, c).unwrap().c, g1_sum(ic0, g1_multiple(ic1, c as nat))) == g1_identity()
        }),
{
    let ic = vk.ic_view().unwrap();
    lemma_sparse_g1_valid(ic[0].unwrap());
    lemma_sparse_g1_valid(ic[1].unwrap());
    let ic0 = sparse_g1(ic[0].unwrap()).unwrap();
    let ic1 = sparse_g1(ic[1].unwrap()).unwrap();
    lemma_forged_c_cancels(ic0, ic1, c);
}

/// A multiple of a canonical point is canonical.
proof fn lemma_g1_multiple_wf(p: Bn254G1, n: nat)
    requires
        p.wf(),
    ensures
        g1_multiple(p, n).wf(),
    decreases n,
{
    lemma_limbs_roundtrip(0);
    if n > 0 {
        lemma_g1_multiple_wf(p, (n - 1) as nat);
        lemma_g1_sum_wf(g1_multiple(p, (n - 1) as nat), p);
    }
}

/// The proof's `C` from `vk_x = IC[0] + c * IC[1]`: its negation.
pub fn proof_c_from_vk_x(vk_x: &Bn254G1) -> (r: Bn254G1)
    requires
        vk_x.wf(),
    ensures
        r == vk_x.sneg(),
{
    g1_neg(vk_x)
}

/// `C = -(IC[0] + c * IC[1])` for the public input `c`.
pub fn forged_c(ic0: &Bn254G1, ic1: &Bn254G1, c: u64) -> (r: Bn254G1)
    requires
        ic0.wf(),
        ic1.wf(),
        ic0.on_curve(),
        ic1.on_curve(),
    ensures
        r == sforged_c(*ic0, *ic1, c),
{
    let k = fr_limbs_of_u64(c);
    proof {
        lemma_limbs_roundtrip(c as int);
    }
    let scaled = g1_mul(ic1, k);
    let vk_x = g1_add(ic0, &scaled);
    proof_c_from_vk_x(&vk_x)
}

/// Reads `alpha`, `IC[0]` and `IC[1]` from the key and forges the proof for `c`.
pub fn forge(vk: &VkFields, target_c: u64) -> (r: Result<Forgery, ForgeError>)
    ensures
        r == sforge(*vk, target_c),
        r is Ok ==> g1_sum(
            r.unwrap().c,
            g1_sum(
                sparse_g1(vk.ic_view().unwrap()[0].unwrap()).unwrap(),
                g1_multiple(sparse_g1(vk.ic_view().unwrap()[1].unwrap()).unwrap(), target_c as nat),
            ),
        ) == g1_identity(),
{
    let alpha = match &vk.alpha {
        Some(a) => a,
        None => {
            return Err(ForgeError::MissingAlpha);
        },
    };
    let ic = match &vk.ic {
        Some(i) => i,
        None => {
            return Err(ForgeError::MissingIc);
        },
    };
    if ic.len() < 2 {
        return Err(ForgeError::IcTooShort);
    }
    let ic0_coords = match &ic[0] {
        Some(c) => c,
        None => {
            return Err(ForgeError::InvalidIc0);
        },
    };
    let ic1_coords = match &ic[1] {
        Some(c) => c,
        None => {
            return Err(ForgeError::InvalidIc1);
        },
    };
    let a = parse_g1(alpha.as_slice())?;
    let ic0 = parse_g1(ic0_coords.as_slice())?;
    let ic1 = parse_g1(ic1_coords.as_slice())?;
    let c = forged_c(&ic0, &ic1, target_c);
    proof {
        lemma_forge_cancels_vk_x(*vk, target_c);
    }
    Ok(Forgery { a, c })
}

/// A JSON value as `serde_json` reads it, one level deep: each member of an array, and
/// each value of an object, is held as its own compact JSON text, which `parse_json`
/// reads in turn; a number is held as its decimal text.
#[derive(Clone, Debug)]
pub enum Json {
    Null,
    Bool(bool),
    Number(String),
    Str(String),
    Array(Vec<String>),
    Object(Vec<(String, String)>),
}

/// What `serde_json` reads from a JSON text, or `None` where the text is not JSON.
pub uninterp spec fn json_parse(s: Seq<char>) -> Option<Json>;

/// `serde_json::from_str` into a `serde_json::Value`, taken apart one level: the members of
/// an array and the values of an object are written back with `Value`'s `Display`
/// (compact JSON), a number with `Number`'s `Display`.  The object's entries come in
/// the order of `serde_json`'s map (sorted by key, each key once).  Nothing is stated of
/// which texts are JSON or of what they hold: `json_parse` names the result.
#[verifier::external_body]
fn parse_json(s: &str) -> (r: Option<Json>)
    ensures
        r == json_parse(s@),
{
    match serde_json::from_str::<Value>(s) {
        Ok(Value::Null) => Some(Json::Null),
        Ok(Value::Bool(b)) => Some(Json::Bool(b)),
        Ok(Value::Number(n)) => Some(Json::Number(n.to_string())),
        Ok(Value::String(t)) => Some(Json::Str(t)),
        Ok(Value::Array(a)) => Some(Json::Array(a.iter().map(Value::to_string).collect())),
        Ok(Value::Object(o)) => Some(Json::Object(o.into_iter().map(|(k, v)| (k, v.to_string())).collect())),
        Err(_) => None,
    }
}

/// The value of the first entry whose key is `key`.
pub open spec fn sfind(entries: Seq<(String, String)>, key: Seq<char>) -> Option<String>
    decreases entries.len(),
{
    if entries.len() == 0 {
        None
    } else if entries[0].0@ == key {
        Some(entries[0].1)
    } else {
        sfind(entries.drop_first(), key)
    }
}

/// The JSON text of the member `key` of an object; `None` for a missing key or a value
/// that is not an object (where `serde_json`'s indexing gives `null`).
pub open spec fn json_member(j: Json, key: Seq<char>) -> Option<String> {
    match j {
        Json::Object(entries) => sfind(entries@, key),
        _ => None,
    }
}

/// The string that the JSON text `t` holds, if it holds a string.
pub open spec fn json_string(t: String) -> Option<String> {
    match json_parse(t@) {
        Some(Json::Str(s)) => Some(s),
        _ => None,
    }
}

/// The members of the JSON text `t`, if it holds an array.
pub open spec fn json_items(t: String) -> Option<Seq<String>> {
    match json_parse(t@) {
        Some(Json::Array(a)) => Some(a@),
        _ => None,
    }
}

/// A coordinate list read from the JSON text `t`: `Some` exactly when `t` holds an array,
/// each coordinate `Some` exactly when it is a string.
pub open spec fn json_coords(t: String) -> Option<Seq<Option<String>>> {
    match json_items(t) {
        Some(a) => Some(a.map_values(|x: String| json_string(x))),
        None => None,
    }
}

/// The coordinate list of `vk_alpha_1` in the key `j`.
pub open spec fn json_alpha(j: Json) -> Option<Seq<Option<String>>> {
    match json_member(j, "vk_alpha_1"@) {
        Some(t) => json_coords(t),
        None => None,
    }
}

/// The coordinate lists of `IC` in the key `j`.
pub open spec fn json_ic(j: Json) -> Option<Seq<Option<Seq<Option<String>>>>> {
    match json_member(j, "IC"@) {
        Some(t) => match json_items(t) {
            Some(items) => Some(items.map_values(|x: String| json_coords(x))),
            None => None,
        },
        None => None,
    }
}

/// What `forge_from_vk_json` gives for the key text `text` and the public input `c`.
pub open spec fn sforge_json(text: Seq<char>, c: u64) -> Result<Forgery, ForgeError> {
    match json_parse(text) {
        Some(j) => sforge_parts(json_alpha(j), json_ic(j), c),
        None => Err(ForgeError::InvalidJson),
    }
}

/// The value of the first entry of `entries` whose key is `key`.
fn find_member(entries: &Vec<(String, String)>, key: &String) -> (r: Option<String>)
    ensures
        r == sfind(entries@, key@),
{
    let mut i: usize = 0;
    assert(entries@.subrange(0, entries@.len() as int) =~= entries@);
    while i < entries.len()
        invariant
            i <= entries.len(),
            sfind(entries@, key@) == sfind(entries@.subrange(i as int, entries@.len() as int), key@),
        decreases entries.len() - i,
    {
        let ghost rest = entries@.subrange(i as int, entries@.len() as int);
        assert(rest.drop_first() =~= entries@.subrange(i + 1, entries@.len() as int));
        if entries[i].0 == *key {
            return Some(entries[i].1.clone());
        }
        i = i + 1;
    }
    None
}

/// The JSON text of the member `key` of the object `j`.
pub fn member_text(j: &Json, key: &String) -> (r: Option<String>)
    ensures
        r == json_member(*j, key@),
{
    match j {
        Json::Object(entries) => find_member(entries, key),
        _ => None,
    }
}

/// A coordinate list from the JSON text `t`: `Some` exactly when `t` is an array, each
/// entry `Some` exactly when it is a string.
pub fn coords_from_json(t: &String) -> (r: Option<Vec<Option<String>>>)
    ensures
        (match r {
            Some(v) => Some(v@),
            None => None,
        }) == json_coords(*t),
{
    match parse_json(t.as_str()) {
        Some(Json::Array(items)) => {
            let mut out: Vec<Option<String>> = Vec::new();
            for i in 0..items.len()
                invariant
                    out@.len() == i,
                    forall|k: int| 0 <= k < i ==> out@[k] == json_string(#[trigger] items@[k]),
            {
                let entry = match parse_json(items[i].as_str()) {
                    Some(Json::Str(s)) => Some(s),
                    _ => None,
                };
                out.push(entry);
            }
            assert(out@ =~= items@.map_values(|x: String| json_string(x)));
            Some(out)
        },
        _ => None,
    }
}

/// The parts of the key `vk` that the forgery reads: the coordinates of `vk_alpha_1` and
/// of each point of `IC`.
pub fn vk_fields_of(vk: &Json) -> (r: VkFields)
    ensures
        r.alpha_view() == json_alpha(*vk),
        r.ic_view() == json_ic(*vk),
{
    let alpha = match member_text(vk, &String::from_str("vk_alpha_1")) {
        Some(t) => coords_from_json(&t),
        None => None,
    };
    let ic = match member_text(vk, &String::from_str("IC")) {
        Some(t) => match parse_json(t.as_str()) {
            Some(Json::Array(items)) => {
                let mut out: Vec<Option<Vec<Option<String>>>> = Vec::new();
                for i in 0..items.len()
                    invariant
                        out@.len() == i,
                        forall|k: int|
                            0 <= k < i ==> (match #[trigger] out@[k] {
                                Some(v) => Some(v@),
                                None => None,
                            }) == json_coords(items@[k]),
                {
                    out.push(coords_from_json(&items[i]));
                }
                Some(out)
            },
            _ => None,
        },
        None => None,
    };
    let r = VkFields { alpha, ic };
    proof {
        if r.ic is Some {
            assert(r.ic_view().unwrap() =~= json_ic(*vk).unwrap());
        }
    }
    r
}

/// Reads the verifying key from its JSON text and forges the proof for `c`.
pub fn forge_from_vk_json(vk_json: &str, target_c: u64) -> (r: Result<Forgery, ForgeError>)
    ensures
        r == sforge_json(vk_json@, target_c),
{
    match parse_json(vk_json) {
        Some(vk) => forge(&vk_fields_of(&vk), target_c),
        None => Err(ForgeError::InvalidJson),
    }
}

/// The JSON text of the member `key` of the key text `vk_json`, where that text is an
/// object holding it.
pub fn vk_member_text(vk_json: &str, key: &str) -> (r: Option<String>)
    ensures
        r == (match json_parse(vk_json@) {
            Some(j) => json_member(j, key@),
            None => None,
        }),
{
    match parse_json(vk_json) {
        Some(vk) => member_text(&vk, &key.to_owned()),
        None => None,
    }
}

} // verus!
