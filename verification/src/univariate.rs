//! Univariate round polynomials of the sum-check protocol: from evaluations to coefficients,
//! and evaluation using the round claim.
//!
//! Interpolation over the points `1, ..., n` multiplies by the inverse of the Vandermonde
//! matrix, factored as `V^{-1} = U * M` where (rows and columns indexed from 0)
//!
//! - `U` is upper triangular with `U(0, i) = 1`, `U(j, 0) = 0` for `j > 0`, and
//!   `U(j, i) = U(j, i - 1) - U(j - 1, i - 1)`;
//! - `M` is lower triangular with `M(j, 0) = 1`, `M(j, i) = 0` for `j < i`, and
//!   `M(j, i) = M(j - 1, i) - M(j - 1, i - 1) / j`, the division being multiplication by the
//!   given inverse of the node `j`.
//!
//! The module `interpolation` proves that this factorisation interpolates.

use vstd::prelude::*;
use vstd::arithmetic::div_mod::*;
use crate::field::{
    batch_inversion, fadd, felts, fmul, fsub, fsum, poly_value, lemma_fadd_zero, lemma_felt_lt_p,
    lemma_field_ops_lt_p, lemma_fmul_assoc, lemma_fmul_comm, lemma_fmul_one, lemma_fsum_first,
    lemma_fsum_prefix, lemma_poly_value_lt_p, poly_eval, Felt, P,
};
use crate::interpolation::{
    lemma_to_poly_interpolates, lemma_to_poly_takes_the_values, values_at_nodes,
};

verus! {

broadcast use lemma_felt_lt_p, lemma_field_ops_lt_p;

// SPECIFICATION
// ================================================================================================

/// Entry `U(j, i)` (row `j`, column `i`) of the upper triangular matrix `U`.
pub open spec fn u_entry(j: nat, i: nat) -> nat
    decreases i,
{
    if j == 0 {
        1
    } else if i == 0 {
        0
    } else {
        fsub(u_entry(j, (i - 1) as nat), u_entry((j - 1) as nat, (i - 1) as nat))
    }
}

/// Entry `M(j, i)` (row `j`, column `i`) of the lower triangular matrix `M`, where
/// `nodes_inv[j - 1]` stands for the inverse of the node `j`.
pub open spec fn m_entry(nodes_inv: Seq<nat>, j: nat, i: nat) -> nat
    decreases j,
{
    if i == 0 {
        1
    } else if j < i {
        0
    } else {
        fsub(
            m_entry(nodes_inv, (j - 1) as nat, i),
            fmul(nodes_inv[j - 1], m_entry(nodes_inv, (j - 1) as nat, (i - 1) as nat)),
        )
    }
}

/// The row vector `v * U`: entry `i` is `Σ_{j <= i} v_j * U(j, i)`.
pub open spec fn times_u(v: Seq<nat>) -> Seq<nat> {
    Seq::new(v.len(), |i: int| fsum(u_terms(v, i as nat)))
}

/// The terms `v_j * U(j, i)` for `j <= i`.
pub open spec fn u_terms(v: Seq<nat>, i: nat) -> Seq<nat> {
    Seq::new(i + 1, |j: int| fmul(v[j], u_entry(j as nat, i)))
}

/// The row vector `v * M`: entry `i` is `Σ_{j >= i} v_j * M(j, i)`.
pub open spec fn times_m(v: Seq<nat>, nodes_inv: Seq<nat>) -> Seq<nat> {
    Seq::new(v.len(), |i: int| fsum(m_terms(v, nodes_inv, i as nat)))
}

/// The terms `v_j * M(j, i)` for `i <= j < len(v)`.
pub open spec fn m_terms(v: Seq<nat>, nodes_inv: Seq<nat>, i: nat) -> Seq<nat> {
    Seq::new((v.len() - i) as nat, |k: int| fmul(v[i + k], m_entry(nodes_inv, (i + k) as nat, i)))
}

/// The multiplicative inverse of `a` in the field (of a value that has one).
pub open spec fn finv(a: nat) -> nat {
    choose|b: nat| b < P && fmul(a, b) == 1
}

/// The inverses of the interpolation nodes `1, ..., n`.
pub open spec fn nodes_inv(n: nat) -> Seq<nat> {
    Seq::new(n, |i: int| finv((i + 1) as nat))
}

/// The zero-th coefficient `p(0) = claim - p(1)`.
pub open spec fn zeroth_coefficient(partial_evaluations: Seq<nat>, round_claim: nat) -> nat {
    fsub(round_claim, partial_evaluations[0])
}

/// The evaluations `q(i + 1) = (p(i + 1) - p(0)) / (i + 1)` of `q(x) = (p(x) - p(0)) / x`.
pub open spec fn q_evaluations(partial_evaluations: Seq<nat>, round_claim: nat) -> Seq<nat> {
    Seq::new(
        partial_evaluations.len(),
        |i: int|
            fmul(
                fsub(partial_evaluations[i], zeroth_coefficient(partial_evaluations, round_claim)),
                finv((i + 1) as nat),
            ),
    )
}

/// The coefficients that `to_poly` returns: `p(0)` followed by the coefficients of `q` but its
/// constant one (which is the linear coefficient of `p`).
pub open spec fn to_poly_coefficients(partial_evaluations: Seq<nat>, round_claim: nat) -> Seq<nat> {
    let n = partial_evaluations.len();
    let q_coefs = times_m(
        times_u(q_evaluations(partial_evaluations, round_claim)),
        nodes_inv(n),
    );
    seq![zeroth_coefficient(partial_evaluations, round_claim)] + q_coefs.subrange(1, n as int)
}

/// The linear coefficient recovered from the claim: `claim - Σ c_i - c_0`.
pub open spec fn linear_coefficient(coefficients: Seq<nat>, claim: nat) -> nat {
    fsub(fsub(claim, fsum(coefficients)), coefficients[0])
}

/// All coefficients: the linear one put back after the constant one.
pub open spec fn complete_coefficients(coefficients: Seq<nat>, claim: nat) -> Seq<nat> {
    seq![coefficients[0], linear_coefficient(coefficients, claim)] + coefficients.subrange(
        1,
        coefficients.len() as int,
    )
}

// TYPES
// ================================================================================================

/// The evaluations of a univariate polynomial of degree n at 0, 1, ..., n with the evaluation
/// at 0 omitted.
#[derive(Clone, Debug)]
pub struct UnivariatePolyEvals {
    pub partial_evaluations: Vec<Felt>,
}

/// The coefficients of a univariate polynomial of degree n with the linear term coefficient
/// omitted.
#[derive(Clone, Debug)]
pub struct UnivariatePolyCoef {
    pub coefficients: Vec<Felt>,
}

// PROOFS
// ================================================================================================

/// `U` is upper triangular.
pub proof fn lemma_u_upper_triangular(j: nat, i: nat)
    requires
        j > i,
    ensures
        u_entry(j, i) == 0,
    decreases i,
{
    if i > 0 {
        lemma_u_upper_triangular(j, (i - 1) as nat);
        lemma_u_upper_triangular((j - 1) as nat, (i - 1) as nat);
    }
}

/// An inverse is unique: it is the one `finv` picks.
proof fn lemma_inverse_is_finv(a: nat, b: nat)
    requires
        b < P,
        fmul(a, b) == 1,
    ensures
        finv(a) == b,
{
    let c = finv(a);
    assert(c < P && fmul(a, c) == 1);
    // b = b * (a * c) = (b * a) * c = c
    lemma_fmul_one(b);
    lemma_fmul_one(c);
    lemma_fmul_assoc(b, a, c);
    lemma_fmul_comm(b, a);
    lemma_fmul_assoc(a, b, c);
    assert(fmul(b, fmul(a, c)) == b);
    assert(fmul(fmul(b, a), c) == c);
}

// IMPLEMENTATION
// ================================================================================================

/// A vector of `n` zeros.
fn zeros(n: usize) -> (res: Vec<Felt>)
    ensures
        res@.len() == n,
        forall|j: int| 0 <= j < n ==> (#[trigger] res@[j])@ == 0,
{
    let mut res: Vec<Felt> = Vec::new();
    let zero = Felt::zero();
    while res.len() < n
        invariant
            res@.len() <= n,
            zero@ == 0,
            forall|j: int| 0 <= j < res@.len() ==> (#[trigger] res@[j])@ == 0,
        decreases n - res@.len(),
    {
        res.push(zero);
    }
    res
}

/// Overwrites `dst` with `src`.
fn copy_from(dst: &mut Vec<Felt>, src: &Vec<Felt>)
    requires
        old(dst)@.len() == src@.len(),
    ensures
        final(dst)@ == src@,
{
    let mut k: usize = 0;
    while k < src.len()
        invariant
            k <= src@.len(),
            dst@.len() == src@.len(),
            forall|j: int| 0 <= j < k ==> dst@[j] == src@[j],
        decreases src@.len() - k,
    {
        dst.set(k, src[k]);
        k = k + 1;
    }
    proof {
        assert(dst@ =~= src@);
    }
}

/// Returns `U(j, i)` given the column `i - 1` of `U` in `col_prev`, and writes it to the
/// column `i` in `col_cur`.
fn compute_u_entry(j: usize, col_prev: &Vec<Felt>, col_cur: &mut Vec<Felt>) -> (res: Felt)
    requires
        1 <= j < col_prev@.len(),
        j < old(col_cur)@.len(),
    ensures
        res@ == fsub(col_prev@[j as int]@, col_prev@[j - 1]@),
        final(col_cur)@ == old(col_cur)@.update(j as int, res),
{
    let value = col_prev[j].sub(col_prev[j - 1]);
    col_cur.set(j, value);
    value
}

/// Returns `M(j, i)` given the column `i - 1` of `M` in `col_previous`, the column `i` up to
/// row `j - 1` in `col_current`, and the inverse of the node `j`; writes it to `col_current`.
fn compute_m_entry(
    j: usize,
    col_previous: &Vec<Felt>,
    col_current: &mut Vec<Felt>,
    node_inv: Felt,
) -> (res: Felt)
    requires
        1 <= j < col_previous@.len(),
        j < old(col_current)@.len(),
    ensures
        res@ == fsub(old(col_current)@[j - 1]@, fmul(node_inv@, col_previous@[j - 1]@)),
        final(col_current)@ == old(col_current)@.update(j as int, res),
{
    let value = col_current[j - 1].sub(node_inv.mul(col_previous[j - 1]));
    col_current.set(j, value);
    value
}

/// Computes the row vector `vector * U`.
fn multiply_by_u(vector: &[Felt]) -> (res: Vec<Felt>)
    requires
        vector@.len() > 0,
    ensures
        res@.len() == vector@.len(),
        felts(res@) == times_u(felts(vector@)),
{
    let ghost v = felts(vector@);
    let n = vector.len();
    let mut previous_u_col = zeros(n);
    previous_u_col.set(0, Felt::one());
    let mut current_u_col = zeros(n);
    current_u_col.set(0, Felt::one());
    let mut result = zeros(n);
    let mut i: usize = 0;
    proof {
        assert forall|j: int| 0 <= j < n implies (#[trigger] previous_u_col@[j])@ == u_entry(j as nat, 0) by {}
    }
    while i < n
        invariant
            n == vector@.len(),
            v == felts(vector@),
            i <= n,
            previous_u_col@.len() == n,
            current_u_col@.len() == n,
            forall|k: int| 0 <= k < n ==> (#[trigger] current_u_col@[k])@ == previous_u_col@[k]@,
            result@.len() == n,
            forall|j: int|
                0 <= j < n ==> (#[trigger] previous_u_col@[j])@ == u_entry(
                    j as nat,
                    if i == 0 { 0 } else { (i - 1) as nat },
                ),
            forall|k: int| 0 <= k < i ==> (#[trigger] result@[k])@ == times_u(v)[k],
        decreases n - i,
    {
        let ghost ci: nat = if i == 0 { 0 } else { (i - 1) as nat };
        let ghost terms = u_terms(v, i as nat);
        let mut acc = vector[0];
        proof {
            lemma_fmul_one(v[0]);
            lemma_fadd_zero(v[0]);
            lemma_fsum_prefix(terms, 0);
            assert(terms.take(0).len() == 0);
        }
        let mut j: usize = 1;
        while j < i + 1
            invariant
                n == vector@.len(),
                v == felts(vector@),
                i < n,
                1 <= j <= i + 1,
                terms == u_terms(v, i as nat),
                ci == (if i == 0 { 0 } else { (i - 1) as nat }),
                previous_u_col@.len() == n,
                current_u_col@.len() == n,
                forall|k: int| 0 <= k < n ==> (#[trigger] previous_u_col@[k])@ == u_entry(k as nat, ci),
                current_u_col@[0]@ == 1,
                forall|k: int| 1 <= k < j ==> (#[trigger] current_u_col@[k])@ == u_entry(k as nat, i as nat),
                forall|k: int| j <= k < n ==> (#[trigger] current_u_col@[k])@ == u_entry(k as nat, ci),
                acc@ == fsum(terms.take(j as int)),
            decreases i + 1 - j,
        {
            let u = compute_u_entry(j, &previous_u_col, &mut current_u_col);
            proof {
                lemma_fsum_prefix(terms, j as int);
            }
            acc = acc.add(vector[j].mul(u));
            j = j + 1;
        }
        result.set(i, acc);
        proof {
            assert(terms.take(i + 1) =~= terms);
            assert forall|k: int| 0 <= k < n implies (#[trigger] current_u_col@[k])@ == u_entry(k as nat, i as nat) by {
                if k > i {
                    lemma_u_upper_triangular(k as nat, i as nat);
                    lemma_u_upper_triangular(k as nat, ci);
                }
            }
        }
        copy_from(&mut previous_u_col, &current_u_col);
        i = i + 1;
    }
    proof {
        assert(felts(result@) =~= times_u(v));
    }
    result
}

/// Computes the row vector `vector * M`, where `nodes_inv[j - 1]` is the inverse of the node
/// `j`.
fn multiply_by_m(vector: &[Felt], nodes_inv: &[Felt]) -> (res: Vec<Felt>)
    requires
        vector@.len() > 0,
        nodes_inv@.len() + 1 >= vector@.len(),
    ensures
        res@.len() == vector@.len(),
        felts(res@) == times_m(felts(vector@), felts(nodes_inv@)),
{
    let ghost v = felts(vector@);
    let ghost ninv = felts(nodes_inv@);
    let n = vector.len();
    let mut previous_m_col: Vec<Felt> = Vec::new();
    let one = Felt::one();
    while previous_m_col.len() < n
        invariant
            previous_m_col@.len() <= n,
            one@ == 1,
            forall|k: int| 0 <= k < previous_m_col@.len() ==> (#[trigger] previous_m_col@[k])@ == 1,
        decreases n - previous_m_col@.len(),
    {
        previous_m_col.push(one);
    }
    let mut current_m_col = zeros(n);
    current_m_col.set(0, Felt::one());
    let mut result = zeros(n);

    // the first column of M is all ones: the first entry is the sum of the vector
    let ghost terms0 = m_terms(v, ninv, 0);
    let mut sum = Felt::zero();
    let mut k: usize = 0;
    proof {
        assert(terms0.take(0).len() == 0);
    }
    while k < n
        invariant
            n == vector@.len(),
            v == felts(vector@),
            terms0 == m_terms(v, ninv, 0),
            k <= n,
            sum@ == fsum(terms0.take(k as int)),
        decreases n - k,
    {
        proof {
            lemma_fsum_prefix(terms0, k as int);
            lemma_fmul_one(v[k as int]);
        }
        sum = sum.add(vector[k]);
        k = k + 1;
    }
    result.set(0, sum);
    proof {
        assert(terms0.take(n as int) =~= terms0);
    }

    let mut i: usize = 1;
    while i < n
        invariant
            n == vector@.len(),
            v == felts(vector@),
            ninv == felts(nodes_inv@),
            nodes_inv@.len() + 1 >= n,
            1 <= i <= n,
            previous_m_col@.len() == n,
            current_m_col@.len() == n,
            result@.len() == n,
            forall|j: int| 0 <= j < n ==> (#[trigger] previous_m_col@[j])@ == m_entry(ninv, j as nat, (i - 1) as nat),
            forall|r: int| 0 <= r < i ==> (#[trigger] result@[r])@ == times_m(v, ninv)[r],
        decreases n - i,
    {
        current_m_col = zeros(n);
        let ghost terms = m_terms(v, ninv, i as nat);
        let mut acc = Felt::zero();
        let mut j: usize = i;
        proof {
            assert(terms.take(0).len() == 0);
        }
        while j < n
            invariant
                n == vector@.len(),
                v == felts(vector@),
                ninv == felts(nodes_inv@),
                nodes_inv@.len() + 1 >= n,
                1 <= i <= j <= n,
                terms == m_terms(v, ninv, i as nat),
                previous_m_col@.len() == n,
                current_m_col@.len() == n,
                forall|k: int| 0 <= k < n ==> (#[trigger] previous_m_col@[k])@ == m_entry(ninv, k as nat, (i - 1) as nat),
                forall|k: int| 0 <= k < j ==> (#[trigger] current_m_col@[k])@ == m_entry(ninv, k as nat, i as nat),
                forall|k: int| j <= k < n ==> (#[trigger] current_m_col@[k])@ == 0,
                acc@ == fsum(terms.take(j - i)),
            decreases n - j,
        {
            let m = compute_m_entry(j, &previous_m_col, &mut current_m_col, nodes_inv[j - 1]);
            proof {
                lemma_fsum_prefix(terms, j - i);
                assert(m@ == m_entry(ninv, j as nat, i as nat));
            }
            acc = acc.add(vector[j].mul(m));
            j = j + 1;
        }
        result.set(i, acc);
        proof {
            assert(terms.take(n - i) =~= terms);
        }
        copy_from(&mut previous_m_col, &current_m_col);
        i = i + 1;
    }
    proof {
        assert(felts(result@) =~= times_m(v, ninv));
    }
    result
}

/// Computes `vector * V^{-1} = (vector * U) * M`, where `V` is the Vandermonde matrix over the
/// nodes `1, ..., n` and `nodes_inv` holds the inverses of the nodes.
fn multiply_by_inverse_vandermonde(vector: &[Felt], nodes_inv: &[Felt]) -> (res: Vec<Felt>)
    requires
        vector@.len() > 0,
        nodes_inv@.len() + 1 >= vector@.len(),
    ensures
        res@.len() == vector@.len(),
        felts(res@) == times_m(times_u(felts(vector@)), felts(nodes_inv@)),
{
    let res = multiply_by_u(vector);
    multiply_by_m(res.as_slice(), nodes_inv)
}

impl UnivariatePolyEvals {
    /// Gives the coefficient representation of a polynomial `p` represented in evaluation
    /// form.
    ///
    /// Since the evaluation at 0 is omitted, the round claim gives it: `p(0) + p(1) = claim`.
    /// With `p(x) = c0 + x * q(x)`, the evaluations of `q` at `1, ..., n` follow from those of
    /// `p`, and interpolating `q` gives its coefficients. The result is `c0` followed by the
    /// coefficients of `q` but the first, i.e. the linear coefficient of `p` is left out: it
    /// follows from the others and the claim.
    pub fn to_poly(&self, round_claim: Felt) -> (res: UnivariatePolyCoef)
        requires
            self.partial_evaluations@.len() > 0,
            self.partial_evaluations@.len() <= u32::MAX,
        ensures
            felts(res.coefficients@) == to_poly_coefficients(
                felts(self.partial_evaluations@),
                round_claim@,
            ),
            // the polynomial found takes the given values at 1, ..., n
            values_at_nodes(
                complete_coefficients(felts(res.coefficients@), round_claim@),
                self.partial_evaluations@.len() as nat,
            ) == felts(self.partial_evaluations@),
            // and it is the only polynomial with n + 1 coefficients that does so and satisfies
            // p(0) + p(1) = claim
            forall|p: Seq<nat>|
                p.len() == self.partial_evaluations@.len() + 1 && (forall|i: int|
                    0 <= i < p.len() ==> p[i] < P) && #[trigger] values_at_nodes(
                    p,
                    self.partial_evaluations@.len() as nat,
                ) == felts(self.partial_evaluations@) && fadd(poly_value(p, 0), poly_value(p, 1))
                    == round_claim@ ==> complete_coefficients(
                    felts(res.coefficients@),
                    round_claim@,
                ) == p,
    {
        let ghost pe = felts(self.partial_evaluations@);
        let n_minus_1 = self.partial_evaluations.len();

        // the interpolation points 1, ..., n and their inverses
        let mut points: Vec<Felt> = Vec::new();
        let mut i: usize = 0;
        while i < n_minus_1
            invariant
                n_minus_1 == self.partial_evaluations@.len(),
                n_minus_1 <= u32::MAX,
                i <= n_minus_1,
                points@.len() == i,
                forall|k: int| 0 <= k < i ==> (#[trigger] points@[k])@ == k + 1,
            decreases n_minus_1 - i,
        {
            points.push(Felt::from_u32(i as u32 + 1));
            i = i + 1;
        }
        let points_inv = batch_inversion(points.as_slice());
        proof {
            assert forall|k: int| 0 <= k < n_minus_1 implies (#[trigger] points_inv@[k])@ == finv(
                (k + 1) as nat,
            ) by {
                lemma_inverse_is_finv((k + 1) as nat, points_inv@[k]@);
            }
            assert(felts(points_inv@) =~= nodes_inv(n_minus_1 as nat));
        }

        // the zeroth coefficient
        let c0 = round_claim.sub(self.partial_evaluations[0]);

        // the evaluations of q
        let mut q_evals: Vec<Felt> = Vec::new();
        let mut k: usize = 0;
        while k < n_minus_1
            invariant
                n_minus_1 == self.partial_evaluations@.len(),
                points_inv@.len() == n_minus_1,
                pe == felts(self.partial_evaluations@),
                c0@ == zeroth_coefficient(pe, round_claim@),
                forall|j: int| 0 <= j < n_minus_1 ==> (#[trigger] points_inv@[j])@ == finv((j + 1) as nat),
                k <= n_minus_1,
                q_evals@.len() == k,
                forall|j: int| 0 <= j < k ==> (#[trigger] q_evals@[j])@ == q_evaluations(pe, round_claim@)[j],
            decreases n_minus_1 - k,
        {
            q_evals.push(self.partial_evaluations[k].sub(c0).mul(points_inv[k]));
            k = k + 1;
        }
        proof {
            assert(felts(q_evals@) =~= q_evaluations(pe, round_claim@));
        }

        // interpolate q
        let q_coefs = multiply_by_inverse_vandermonde(q_evals.as_slice(), points_inv.as_slice());

        // c0 followed by the coefficients of q but the constant one
        let mut coefficients: Vec<Felt> = Vec::new();
        coefficients.push(c0);
        let mut j: usize = 1;
        while j < q_coefs.len()
            invariant
                1 <= j <= q_coefs@.len(),
                coefficients@.len() == j,
                coefficients@[0] == c0,
                forall|t: int| 1 <= t < j ==> #[trigger] coefficients@[t] == q_coefs@[t],
            decreases q_coefs@.len() - j,
        {
            coefficients.push(q_coefs[j]);
            j = j + 1;
        }
        proof {
            assert(felts(coefficients@) =~= to_poly_coefficients(pe, round_claim@));
            let n = n_minus_1 as nat;
            assert forall|i: int| 0 <= i < pe.len() implies pe[i] < P by {}
            lemma_to_poly_takes_the_values(pe, round_claim@);
            assert forall|p: Seq<nat>|
                p.len() == n + 1 && (forall|i: int| 0 <= i < p.len() ==> p[i] < P)
                    && #[trigger] values_at_nodes(p, n) == pe && fadd(poly_value(p, 0), poly_value(p, 1))
                    == round_claim@ implies complete_coefficients(felts(coefficients@), round_claim@)
                == p by {
                lemma_to_poly_interpolates(p);
            }
        }
        UnivariatePolyCoef { coefficients }
    }
}

impl UnivariatePolyCoef {
    /// Evaluates the polynomial at `challenge`, recovering the linear coefficient from the
    /// claim (`claim = 2 * c0 + c1 + ... + c_{n-1}`) and then using Horner's method.
    pub fn evaluate_using_claim(&self, claim: &Felt, challenge: &Felt) -> (res: Felt)
        requires
            self.coefficients@.len() > 0,
        ensures
            res@ == poly_value(complete_coefficients(felts(self.coefficients@), claim@), challenge@),
    {
        let ghost c = felts(self.coefficients@);
        let len = self.coefficients.len();

        // the sum of the coefficients
        let mut sum = Felt::zero();
        let mut k: usize = 0;
        proof {
            assert(c.take(0).len() == 0);
        }
        while k < len
            invariant
                len == self.coefficients@.len(),
                c == felts(self.coefficients@),
                k <= len,
                sum@ == fsum(c.take(k as int)),
            decreases len - k,
        {
            proof {
                lemma_fsum_prefix(c, k as int);
            }
            sum = sum.add(self.coefficients[k]);
            k = k + 1;
        }
        proof {
            assert(c.take(len as int) =~= c);
        }
        let c1 = claim.sub(sum).sub(self.coefficients[0]);

        // the full list of coefficients
        let mut complete: Vec<Felt> = Vec::new();
        complete.push(self.coefficients[0]);
        complete.push(c1);
        let mut j: usize = 1;
        while j < len
            invariant
                len == self.coefficients@.len(),
                c == felts(self.coefficients@),
                1 <= j <= len,
                complete@.len() == j + 1,
                complete@[0] == self.coefficients@[0],
                complete@[1] == c1,
                forall|t: int| 2 <= t < j + 1 ==> #[trigger] complete@[t] == self.coefficients@[t - 1],
            decreases len - j,
        {
            complete.push(self.coefficients[j]);
            j = j + 1;
        }
        proof {
            assert(felts(complete@) =~= complete_coefficients(c, claim@));
        }
        poly_eval(complete.as_slice(), *challenge)
    }
}

// LAWS
// ================================================================================================

/// The value of a polynomial at one is the sum of its coefficients.
pub proof fn lemma_poly_value_at_one(p: Seq<nat>)
    ensures
        poly_value(p, 1) == fsum(p),
    decreases p.len(),
{
    if p.len() > 0 {
        lemma_poly_value_at_one(p.drop_first());
        lemma_fsum_first(p);
        lemma_fmul_one(poly_value(p.drop_first(), 1));
        lemma_poly_value_lt_p(p.drop_first(), 1);
        let a = p[0] as int;
        let b = fsum(p.drop_first()) as int;
        assert(fadd(b as nat, a as nat) == fadd(a as nat, b as nat));
    }
}

/// The polynomial that `evaluate_using_claim` evaluates satisfies the sum-check relation
/// `p(0) + p(1) = claim`, whatever the coefficients.
pub proof fn lemma_claim_is_sum_at_zero_and_one(coefficients: Seq<nat>, claim: nat)
    requires
        coefficients.len() > 0,
        claim < P,
        forall|i: int| 0 <= i < coefficients.len() ==> coefficients[i] < P,
    ensures
        fadd(
            poly_value(complete_coefficients(coefficients, claim), 0),
            poly_value(complete_coefficients(coefficients, claim), 1),
        ) == claim,
{
    let c = coefficients;
    let cc = complete_coefficients(c, claim);
    let rest = c.subrange(1, c.len() as int);
    let c0 = c[0];
    let c1 = linear_coefficient(c, claim);
    let s = fsum(rest);
    // p(0) is the constant coefficient
    lemma_poly_value_lt_p(cc.drop_first(), 0);
    lemma_small_mod(c0, P as nat);
    assert(poly_value(cc, 0) == c0);
    // p(1) is the sum of all coefficients
    lemma_poly_value_at_one(cc);
    lemma_fsum_first(cc);
    assert(cc.drop_first().drop_first() =~= rest);
    lemma_fsum_first(cc.drop_first());
    lemma_fsum_first(c);
    assert(c.drop_first() =~= rest);
    assert(fsum(c) == fadd(c0, s));
    assert(fsum(cc) == fadd(c0, fadd(c1, s)));
    let p = P as int;
    let ci = c0 as int;
    let si = s as int;
    let ki = claim as int;
    lemma_small_mod(s, P as nat);
    lemma_small_mod(claim, P as nat);
    lemma_small_mod(c0, P as nat);
    assert(fsub(claim, fsum(c)) as int == (ki - ci - si) % p) by {
        lemma_sub_mod_noop(ki, ci + si, p);
    }
    assert(c1 as int == (ki - ci - ci - si) % p) by {
        lemma_sub_mod_noop(ki - ci - si, ci, p);
    }
    assert(fadd(c1, s) as int == (ki - ci - ci) % p) by {
        lemma_add_mod_noop(ki - ci - ci - si, si, p);
    }
    assert(fadd(c0, fadd(c1, s)) as int == (ki - ci) % p) by {
        lemma_add_mod_noop_right(ci, ki - ci - ci, p);
    }
    assert(fadd(c0, fadd(c0, fadd(c1, s))) == claim) by {
        lemma_add_mod_noop_right(ci, ki - ci, p);
    }
}

} // verus!
