//! Verified pieces of the Miden VM: the base field that the prover works over, the
//! assembly operation codes, the block stack table of the decoder, the Lagrange kernel of
//! the multi-linear equality function, sum-check round polynomials and the univariate
//! round polynomial interpolation (with the proof that it interpolates), the primality of
//! the field's modulus, and the GKR circuit compositions.

pub mod field;
pub mod opcode;
pub mod trace_layout;
pub mod block_stack_table;
pub mod lagrange_ker;
pub mod multilinear;
pub mod sum_check;
pub mod univariate;
pub mod circuit;
pub mod interpolation;
pub mod prime_field;
pub mod polynomial;
