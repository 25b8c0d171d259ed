//! A toy pairing-based proof system over tiny fields: a prime field of order 101 and its
//! curve `y^2 = x^3 + 3`, a reduced Tate pairing, KZG polynomial commitments, polynomial
//! IOP gadgets and a minimal PLONK; and, on BN254, the computation of a forged Groth16
//! proof for a verifying key made without a trusted setup.
pub mod arith;
pub mod field;
pub mod tiny_field;
pub mod pairing;
pub mod pairing_values;
pub mod poly;
pub mod poly_laws;
pub mod kzg;
pub mod kzg_laws;
pub mod pcs_gadgets;
pub mod g2_multiples;
pub mod g2_sums;
pub mod plonk;
pub mod forge;
