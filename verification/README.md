# babyplonk

A toy pairing-based proof system over tiny fields, verified with Verus, and the
computation of a forged Groth16 proof on BN254.

- `src/arith.rs`: primality of the two moduli, Bezout, modular inverses.
- `src/field.rs`: the prime fields `TinyFp` (101) and `ScalarField` (17).
- `src/tiny_field.rs`: `Fp2 = Fp[i]/(i^2 + 1)` and the curve `y^2 = x^3 + 3` over `TinyFp`
  (`G1Point`) and over `Fp2` (`G2Point`), with their group laws.
- `src/g2_multiples.rs`: the multiples of the G2 generator by the residues below 101,
  computed point by point, with every denominator shown invertible where it is.
- `src/g2_sums.rs`: the sums `bH + cH` of those multiples, point by point; the additivity
  of the pairing in its second argument, and its bilinearity for every residue `b < 101` on
  the G2 side whose multiple `bH` can be computed (all but six, where a denominator is a
  zero divisor of `Fp2`).
- `src/pairing.rs`: the reduced Tate pairing of order 17, with values in
  `GtField = Fp[w]/(w^2 + w + 1)`, and the laws of powers in its target group.
- `src/pairing_values.rs`: the pairing on the multiples of the two generators, evaluated
  point by point through the Miller loop and the final exponentiation (a table over the 32
  points of the image of the G2 multiples under the distortion map), which gives that it is
  defined there, its bilinearity `e(aG, bH) == e(G, H)^(ab)` for every 64-bit `a` and every
  `b` below 17, and its additivity in the first argument.
- `src/poly.rs`, `src/poly_laws.rs`: dense polynomials over `ScalarField`; evaluation of sums,
  differences, products, shifts and long division; root counting.  The polynomial type is
  the library's own: `ark_poly`'s `DensePolynomial` is generic over an `ark_ff` field, and
  making the tiny fields `ark_ff` fields takes an implementation of `ark_ff`'s `MontConfig`
  trait, normally written by its derive macro; neither an outside derive nor an impl of an
  outside trait can stand in the verified library.
- `src/kzg.rs`: KZG commitments.
- `src/kzg_laws.rs`: the completeness of KZG: over the reference string of every `setup`,
  every honest opening verifies, with every pairing it computes defined; and an opening
  against any wrong value is refused.  The zero test,
  the product check, the permutation check and PLONK are complete on top of it
  (`lemma_complete` in each).
- `src/pcs_gadgets.rs`: domains, vanishing polynomials, Lagrange interpolation, the zero test,
  the product check and the prescribed permutation check.
- `src/plonk.rs`: a minimal PLONK with addition and multiplication gates.
- `src/forge.rs`: reading a BN254 verifying key from its JSON text (through `serde_json`),
  checking its G1 points and computing `C = -(IC[0] + c * IC[1])` through `ark-bn254` /
  `ark-ec` / `ark-ff`.
- `app/main.rs`: the command-line program that reads the key file, forges the proof and writes
  it.

Every function in `src/` is verified against its contract, except the few wrappers that call
the arkworks crates, `serde_json` and the random number generator: Verus takes their
`ensures` clauses on trust, and each one's doc comment says what it claims of the outside
function.
