# miden_vm (verified pieces)

A Verus library with pieces of the Miden VM, each function proved against its contract:

- `field`: the prime field `2^64 - 2^32 + 1` (arithmetic done by miden-crypto / winter-math,
  stated modulo `P`), batch inversion and polynomial evaluation.
- `opcode`: the one-byte operation codes of the assembly serialization, with write/read and
  round-trip laws.
- `block_stack_table`: the request and response multiplicands of the decoder's block stack
  table, over a row-by-row model of the main trace.
- `lagrange_ker`, `multilinear`: the EQ function, its Lagrange kernel, inner products and
  multi-linear polynomials, with the laws that tie them together.
- `sum_check`, `univariate`: sum-check round data, the evaluation domain and claim reduction,
  and the interpolation of round polynomials through the factorisation of the inverse
  Vandermonde matrix.
- `interpolation`: the proof that this interpolation is exact in both directions: it gives
  back the coefficients of a polynomial from its values, and the polynomial it finds takes
  the given values (`U` is involutory, the columns of `M` are the Newton basis, whose values
  at the nodes are the entries of `U`).
- `prime_field`: a Lucas certificate that the modulus is prime (7 has order `P - 1`), so every
  non-zero value has an inverse and the field has no zero divisors.
- `polynomial`: univariate polynomials as coefficient sequences, with sum, difference, scaling
  and product proved against evaluation.
- `circuit`, `trace_layout`: the input layer and composition polynomials of the GKR circuit,
  with the proof that along any line each composition is a polynomial of degree at most its
  `max_degree`.

`app/` holds what Verus does not see: the winter-utils serialization traits for operation
codes, conversions to and from miden-crypto field elements, and the sources of the standard
library's assembly modules.

All the field arithmetic is over the base field `2^64 - 2^32 + 1`. The original's sum-check and
GKR code is generic over `FieldElement`, and elsewhere runs over the quadratic extension
field too; here every function works over the base field only.
