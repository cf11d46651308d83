//! Proof that the round polynomial interpolation of `univariate` is correct: multiplying the
//! values of a polynomial at the nodes `1, ..., n` by `U` and then by `M` gives back its
//! coefficients.
//!
//! The argument: `U` is involutory; the columns of `M` hold the coefficients of the Newton
//! basis polynomials `N_j(x) = ∏_{l=1..j} (1 - x / l)`, whose values at the nodes are the
//! entries of `U`; and every coefficient vector is a combination of the columns of `M`.

use vstd::prelude::*;
use vstd::arithmetic::div_mod::*;
use vstd::arithmetic::mul::*;
use crate::field::{
    fadd, fmul, fsub, fsum, lemma_fadd_zero, lemma_fmul_one, lemma_fsum_first, lemma_fsum_prefix, lemma_poly_value_lt_p,
    poly_value, P,
};
use crate::prime_field::lemma_nonzero_is_invertible;
use crate::univariate::{
    complete_coefficients, finv, lemma_poly_value_at_one, linear_coefficient, m_entry, m_terms, nodes_inv,
    q_evaluations, times_m, times_u, to_poly_coefficients, u_entry, u_terms, zeroth_coefficient,
};

verus! {

// INTEGER SUMS AND CONGRUENCES
// ================================================================================================

/// The integer sum of a sequence.
pub open spec fn isum(s: Seq<int>) -> int
    decreases s.len(),
{
    if s.len() == 0 {
        0
    } else {
        isum(s.drop_last()) + s.last()
    }
}

/// A field sum of reduced terms is the reduced integer sum.
proof fn lemma_fsum_is_isum_mod(t: Seq<int>)
    ensures
        fsum(Seq::new(t.len(), |j: int| (t[j] % (P as int)) as nat)) == isum(t) % (P as int),
    decreases t.len(),
{
    let s = Seq::new(t.len(), |j: int| (t[j] % (P as int)) as nat);
    if t.len() > 0 {
        lemma_fsum_is_isum_mod(t.drop_last());
        assert(s.drop_last() =~= Seq::new(t.drop_last().len(), |j: int| (t.drop_last()[j] % (P as int)) as nat));
        lemma_add_mod_noop(isum(t.drop_last()), t.last(), P as int);
        lemma_mod_twice(isum(t.drop_last()), P as int);
        lemma_mod_twice(t.last(), P as int);
    }
}

/// Sums of pointwise congruent sequences are congruent.
proof fn lemma_isum_congruent(a: Seq<int>, b: Seq<int>)
    requires
        a.len() == b.len(),
        forall|j: int| 0 <= j < a.len() ==> a[j] % (P as int) == b[j] % (P as int),
    ensures
        isum(a) % (P as int) == isum(b) % (P as int),
    decreases a.len(),
{
    if a.len() > 0 {
        lemma_isum_congruent(a.drop_last(), b.drop_last());
        lemma_add_mod_noop(isum(a.drop_last()), a.last(), P as int);
        lemma_add_mod_noop(isum(b.drop_last()), b.last(), P as int);
    }
}

/// The sum of a pointwise difference is the difference of the sums.
proof fn lemma_isum_sub(a: Seq<int>, b: Seq<int>, c: Seq<int>)
    requires
        a.len() == b.len(),
        c.len() == a.len(),
        forall|j: int| 0 <= j < a.len() ==> c[j] == a[j] - b[j],
    ensures
        isum(c) == isum(a) - isum(b),
    decreases a.len(),
{
    if a.len() > 0 {
        lemma_isum_sub(a.drop_last(), b.drop_last(), c.drop_last());
    }
}

/// A sum can be split off at its first term.
proof fn lemma_isum_first(s: Seq<int>)
    requires
        s.len() > 0,
    ensures
        isum(s) == s[0] + isum(s.drop_first()),
    decreases s.len(),
{
    if s.len() > 1 {
        lemma_isum_first(s.drop_last());
        assert(s.drop_last().drop_first() =~= s.drop_first().drop_last());
        assert(isum(s.drop_first()) == isum(s.drop_first().drop_last()) + s.drop_first().last());
    } else {
        assert(isum(s.drop_first()) == 0);
        assert(isum(s.drop_last()) == 0);
    }
}

// THE MATRIX U OVER THE INTEGERS
// ================================================================================================

/// Entry `U(j, i)` of `U` as an integer (a signed binomial coefficient).
pub open spec fn iu(j: nat, i: nat) -> int
    decreases i,
{
    if j == 0 {
        1
    } else if i == 0 {
        0
    } else {
        iu(j, (i - 1) as nat) - iu((j - 1) as nat, (i - 1) as nat)
    }
}

/// The field entries of `U` are the integer entries reduced.
proof fn lemma_u_entry_is_iu(j: nat, i: nat)
    ensures
        u_entry(j, i) as int == iu(j, i) % (P as int),
    decreases i,
{
    if j > 0 && i > 0 {
        lemma_u_entry_is_iu(j, (i - 1) as nat);
        lemma_u_entry_is_iu((j - 1) as nat, (i - 1) as nat);
        lemma_sub_mod_noop(iu(j, (i - 1) as nat), iu((j - 1) as nat, (i - 1) as nat), P as int);
    } else if j == 0 {
        lemma_small_mod(1, P as nat);
    }
}

/// `U` is upper triangular (over the integers).
proof fn lemma_iu_upper_triangular(j: nat, i: nat)
    requires
        j > i,
    ensures
        iu(j, i) == 0,
    decreases i,
{
    if i > 0 {
        lemma_iu_upper_triangular(j, (i - 1) as nat);
        lemma_iu_upper_triangular((j - 1) as nat, (i - 1) as nat);
    }
}

/// The terms `v_j * U(j, i)` for `j <= i`.
pub open spec fn id_terms(v: Seq<int>, i: nat) -> Seq<int> {
    Seq::new(i + 1, |j: int| v[j] * iu(j as nat, i))
}

/// Entry `i` of `v * U` over the integers.
pub open spec fn id(v: Seq<int>, i: nat) -> int {
    isum(id_terms(v, i))
}

/// Entry `i` of `v * U` only depends on the first `i + 1` entries of `v`.
proof fn lemma_id_prefix(v: Seq<int>, w: Seq<int>, i: nat)
    requires
        v.len() > i,
        w.len() > i,
        forall|j: int| 0 <= j <= i ==> v[j] == w[j],
    ensures
        id(v, i) == id(w, i),
{
    assert(id_terms(v, i) =~= id_terms(w, i));
}

/// The column recurrence of `U`, applied to a row vector: entry `i` of `v * U` is entry
/// `i - 1` of `v * U` minus entry `i - 1` of `(v shifted by one) * U`.
proof fn lemma_id_step(v: Seq<int>, i: nat)
    requires
        i > 0,
        v.len() > i,
    ensures
        id(v, i) == id(v, (i - 1) as nat) - id(v.drop_first(), (i - 1) as nat),
{
    let t = id_terms(v, i);
    let a = Seq::new(i + 1, |j: int| v[j] * iu(j as nat, (i - 1) as nat));
    let b = Seq::new(i + 1, |j: int| if j == 0 { 0 } else { v[j] * iu((j - 1) as nat, (i - 1) as nat) });
    assert forall|j: int| 0 <= j < t.len() implies t[j] == a[j] - b[j] by {
        if j > 0 {
            lemma_mul_is_distributive_sub(v[j], iu(j as nat, (i - 1) as nat), iu((j - 1) as nat, (i - 1) as nat));
        }
    }
    lemma_isum_sub(a, b, t);
    // the sum of `a` drops its last term, which is zero
    lemma_iu_upper_triangular(i, (i - 1) as nat);
    assert(a.drop_last() =~= id_terms(v, (i - 1) as nat));
    assert(a.last() == 0);
    // the sum of `b` starts with a zero term
    lemma_isum_first(b);
    assert(b.drop_first() =~= id_terms(v.drop_first(), (i - 1) as nat));
}

/// `(v - w) * U == v * U - w * U`, entry by entry.
proof fn lemma_id_linear(v: Seq<int>, w: Seq<int>, d: Seq<int>, i: nat)
    requires
        v.len() > i,
        w.len() > i,
        d.len() > i,
        forall|j: int| 0 <= j <= i ==> d[j] == v[j] - w[j],
    ensures
        id(d, i) == id(v, i) - id(w, i),
{
    assert forall|j: int| 0 <= j < i + 1 implies id_terms(d, i)[j] == id_terms(v, i)[j] - id_terms(w, i)[j] by {
        lemma_mul_is_distributive_sub_other_way(iu(j as nat, i), v[j], w[j]);
    }
    lemma_isum_sub(id_terms(v, i), id_terms(w, i), id_terms(d, i));
}

/// `U` is involutory over the integers: `(v * U) * U == v`.
proof fn lemma_id_involutory(v: Seq<int>, i: nat)
    requires
        v.len() > i,
    ensures
        id(Seq::new(i + 1, |k: int| id(v, k as nat)), i) == v[i as int],
    decreases i,
{
    let w = Seq::new(i + 1, |k: int| id(v, k as nat));
    if i == 0 {
        assert(id_terms(w, 0) =~= seq![w[0] * 1]);
        assert(id_terms(v, 0) =~= seq![v[0] * 1]);
        assert(isum(seq![w[0] * 1]) == w[0]) by {
            assert(isum(seq![w[0] * 1].drop_last()) == 0);
        }
        assert(isum(seq![v[0] * 1]) == v[0]) by {
            assert(isum(seq![v[0] * 1].drop_last()) == 0);
        }
    } else {
        let sv = v.drop_first();
        let w2 = Seq::new(i as nat, |k: int| id(sv, k as nat));
        lemma_id_step(w, i);
        // entries 1.. of `w` are entries of `w` minus entries of `w2`
        let ws = w.drop_first();
        let wt = w.take(i as int);
        assert forall|k: int| 0 <= k <= i - 1 implies ws[k] == wt[k] - w2[k] by {
            lemma_id_step(v, (k + 1) as nat);
        }
        lemma_id_linear(wt, w2, ws, (i - 1) as nat);
        lemma_id_prefix(wt, w, (i - 1) as nat);
        lemma_id_involutory(sv, (i - 1) as nat);
        assert(w2 =~= Seq::new(((i - 1) + 1) as nat, |k: int| id(sv, k as nat)));
    }
}

// `U` IS INVOLUTORY IN THE FIELD
// ================================================================================================

/// The integers of a sequence of naturals.
pub open spec fn ints(v: Seq<nat>) -> Seq<int> {
    Seq::new(v.len(), |j: int| v[j] as int)
}

/// Entry `i` of `v * U` in the field is the integer entry reduced.
proof fn lemma_times_u_is_id(v: Seq<nat>, i: nat)
    requires
        i < v.len(),
    ensures
        times_u(v)[i as int] as int == id(ints(v), i) % (P as int),
{
    let t = id_terms(ints(v), i);
    assert forall|j: int| 0 <= j < i + 1 implies #[trigger] u_terms(v, i)[j] == (t[j] % (P as int)) as nat by {
        lemma_u_entry_is_iu(j as nat, i);
        lemma_mul_mod_noop_right(v[j] as int, iu(j as nat, i), P as int);
    }
    assert(u_terms(v, i) =~= Seq::new(t.len(), |j: int| (t[j] % (P as int)) as nat));
    lemma_fsum_is_isum_mod(t);
}

/// `U` is involutory: `(v * U) * U == v` for canonical values.
pub proof fn lemma_times_u_involutory(v: Seq<nat>)
    requires
        forall|j: int| 0 <= j < v.len() ==> v[j] < P,
    ensures
        times_u(times_u(v)) == v,
{
    let y = times_u(v);
    assert forall|i: int| 0 <= i < v.len() implies #[trigger] times_u(y)[i] == v[i] by {
        let w = Seq::new((i + 1) as nat, |k: int| id(ints(v), k as nat));
        lemma_times_u_is_id(y, i as nat);
        // the terms of y * U are congruent to those of w * U
        assert forall|j: int| 0 <= j < i + 1 implies #[trigger] id_terms(ints(y), i as nat)[j] % (P as int)
            == id_terms(w, i as nat)[j] % (P as int) by {
            lemma_times_u_is_id(v, j as nat);
            lemma_mod_twice(id(ints(v), j as nat), P as int);
            lemma_mul_mod_noop_left(ints(y)[j], iu(j as nat, i as nat), P as int);
            lemma_mul_mod_noop_left(w[j], iu(j as nat, i as nat), P as int);
        }
        lemma_isum_congruent(id_terms(ints(y), i as nat), id_terms(w, i as nat));
        lemma_id_involutory(ints(v), i as nat);
        lemma_small_mod(v[i], P as nat);
    }
    assert(times_u(y) =~= v);
}

// CONGRUENCES MODULO P
// ================================================================================================

/// `a` and `b` are congruent modulo `P`.
pub open spec fn cong(a: int, b: int) -> bool {
    a % (P as int) == b % (P as int)
}

/// Field operations are congruent to the integer operations.
pub proof fn lemma_field_ops_cong(x: nat, y: nat)
    ensures
        cong(fadd(x, y) as int, x as int + y as int),
        cong(fsub(x, y) as int, x as int - y as int),
        cong(fmul(x, y) as int, x as int * y as int),
{
    lemma_mod_twice(x as int + y as int, P as int);
    lemma_mod_twice(x as int - y as int, P as int);
    lemma_mod_twice(x as int * y as int, P as int);
}

/// Congruence is kept by products.
pub proof fn lemma_cong_mul(x: int, y: int, a: int, b: int)
    requires
        cong(x, a),
        cong(y, b),
    ensures
        cong(x * y, a * b),
{
    lemma_mul_mod_noop(x, y, P as int);
    lemma_mul_mod_noop(a, b, P as int);
}

/// Congruence is kept by differences.
pub proof fn lemma_cong_sub(x: int, y: int, a: int, b: int)
    requires
        cong(x, a),
        cong(y, b),
    ensures
        cong(x - y, a - b),
{
    lemma_sub_mod_noop(x, y, P as int);
    lemma_sub_mod_noop(a, b, P as int);
}

/// Congruence is kept by sums.
pub proof fn lemma_cong_add(x: int, y: int, a: int, b: int)
    requires
        cong(x, a),
        cong(y, b),
    ensures
        cong(x + y, a + b),
{
    lemma_add_mod_noop(x, y, P as int);
    lemma_add_mod_noop(a, b, P as int);
}

// THE NEWTON BASIS
// ================================================================================================

/// `nodes_inv[k]` is the inverse of the node `k + 1`, for `k < n`.
pub open spec fn inverts_nodes(nodes_inv: Seq<nat>, n: nat) -> bool {
    &&& nodes_inv.len() >= n
    &&& forall|k: int| 0 <= k < n ==> #[trigger] nodes_inv[k] < P && fmul((k + 1) as nat, nodes_inv[k]) == 1
}

/// The value at `x` of the Newton basis polynomial `N_j(x) = ∏_{l=1..j} (1 - x / l)`, the
/// division by the node `l` being multiplication by `nodes_inv[l - 1]`.
pub open spec fn newton_eval(nodes_inv: Seq<nat>, j: nat, x: nat) -> nat
    decreases j,
{
    if j == 0 {
        1
    } else {
        fmul(newton_eval(nodes_inv, (j - 1) as nat, x), fsub(1, fmul(nodes_inv[j - 1], x)))
    }
}

/// `N_1(x + 1) == N_1(x) - N_0(x)`.
proof fn lemma_newton_shift_first(nodes_inv: Seq<nat>, x: nat)
    requires
        inverts_nodes(nodes_inv, 1),
    ensures
        newton_eval(nodes_inv, 1, x + 1) == fsub(
            newton_eval(nodes_inv, 1, x),
            newton_eval(nodes_inv, 0, x),
        ),
{
    let xi = x as int;
    let b = nodes_inv[0];
    assert(fmul(1, b) == 1);
    lemma_small_mod(b, P as nat);
    lemma_small_mod(1, P as nat);
    assert(newton_eval(nodes_inv, 0, x + 1) == 1);
    assert(newton_eval(nodes_inv, 0, x) == 1);
    lemma_newton_unfold_cong(nodes_inv, 1, x + 1);
    lemma_newton_unfold_cong(nodes_inv, 1, x);
    let lhs = newton_eval(nodes_inv, 1, x + 1);
    let n1 = newton_eval(nodes_inv, 1, x);
    let rhs = fsub(n1, 1);
    assert(1 * (1 - b as int * (xi + 1)) == -xi) by (nonlinear_arith)
        requires
            b == 1,
    ;
    assert(cong(lhs as int, -xi));
    lemma_field_ops_cong(n1, 1);
    lemma_cong_sub(n1 as int, 1, 1 - xi, 1);
    assert(cong(rhs as int, -xi));
    lemma_small_mod(lhs, P as nat);
    lemma_small_mod(rhs, P as nat);
}

/// The congruences of one step of `lemma_newton_shift` give the step.
proof fn lemma_shift_combine(n2: nat, n1: nat, n0: nat, n1s: nat, n0s: nat, a: nat, b: nat, x: int, j: nat)
    requires
        j >= 2,
        fmul((j - 1) as nat, a) == 1,
        fmul(j, b) == 1,
        cong(n1 as int, n2 as int * (1 - a as int * x)),
        cong(n0 as int, n1 as int * (1 - b as int * x)),
        n1s == fsub(n1, n2),
        cong(n0s as int, n1s as int * (1 - b as int * (x + 1))),
        n0s < P,
    ensures
        n0s == fsub(n0, n1),
{
    let e1 = n2 as int * (1 - a as int * x);
    let e0 = e1 * (1 - b as int * x);
    lemma_cong_mul(n1 as int, 1 - b as int * x, e1, 1 - b as int * x);
    lemma_field_ops_cong(n1, n2);
    lemma_cong_sub(n1 as int, n2 as int, e1, n2 as int);
    let e1s = e1 - n2 as int;
    lemma_cong_mul(n1s as int, 1 - b as int * (x + 1), e1s, 1 - b as int * (x + 1));
    lemma_field_ops_cong(n0, n1);
    lemma_cong_sub(n0 as int, n1 as int, e0, e1);
    lemma_shift_algebra(n2 as int, a, b, x, j);
    lemma_small_mod(n0s, P as nat);
    lemma_small_mod(fsub(n0, n1), P as nat);
}

/// `N_j(x + 1) == N_j(x) - N_{j-1}(x)`.
proof fn lemma_newton_shift(nodes_inv: Seq<nat>, j: nat, x: nat)
    requires
        j >= 1,
        inverts_nodes(nodes_inv, j),
    ensures
        newton_eval(nodes_inv, j, x + 1) == fsub(
            newton_eval(nodes_inv, j, x),
            newton_eval(nodes_inv, (j - 1) as nat, x),
        ),
    decreases j,
{
    if j == 1 {
        lemma_newton_shift_first(nodes_inv, x);
    } else {
        lemma_newton_shift(nodes_inv, (j - 1) as nat, x);
        lemma_newton_unfold_cong(nodes_inv, (j - 1) as nat, x);
        lemma_newton_unfold_cong(nodes_inv, j, x);
        lemma_newton_unfold_cong(nodes_inv, j, x + 1);
        assert(fmul((j - 2 + 1) as nat, nodes_inv[j - 2]) == 1);
        assert(fmul((j - 1 + 1) as nat, nodes_inv[j - 1]) == 1);
        lemma_shift_combine(
            newton_eval(nodes_inv, (j - 2) as nat, x),
            newton_eval(nodes_inv, (j - 1) as nat, x),
            newton_eval(nodes_inv, j, x),
            newton_eval(nodes_inv, (j - 1) as nat, x + 1),
            newton_eval(nodes_inv, j, x + 1),
            nodes_inv[j - 2],
            nodes_inv[j - 1],
            x as int,
            j,
        );
    }
}

/// `N_j(x) ≡ N_{j-1}(x) * (1 - nodes_inv[j - 1] * x)`.
proof fn lemma_newton_unfold_cong(nodes_inv: Seq<nat>, j: nat, x: nat)
    requires
        j >= 1,
    ensures
        cong(
            newton_eval(nodes_inv, j, x) as int,
            newton_eval(nodes_inv, (j - 1) as nat, x) as int * (1 - nodes_inv[j - 1] as int * x as int),
        ),
{
    let b = nodes_inv[j - 1];
    let prev = newton_eval(nodes_inv, (j - 1) as nat, x);
    lemma_field_ops_cong(b, x);
    lemma_field_ops_cong(1, fmul(b, x));
    lemma_cong_sub(1, fmul(b, x) as int, 1, b as int * x as int);
    lemma_field_ops_cong(prev, fsub(1, fmul(b, x)));
    lemma_cong_mul(prev as int, fsub(1, fmul(b, x)) as int, prev as int, 1 - b as int * x as int);
}

/// The algebra of one step of `lemma_newton_shift`: with `A (1 - a x) (1 - b x)` for `N_j(x)`,
/// `A (1 - a x)` for `N_{j-1}(x)` and `- A a x` for `N_{j-1}(x + 1)`, the shift identity holds
/// when `a` and `b` are the inverses of `j - 1` and `j`.
proof fn lemma_shift_algebra(n2: int, a: nat, b: nat, x: int, j: nat)
    requires
        j >= 2,
        fmul((j - 1) as nat, a) == 1,
        fmul(j, b) == 1,
    ensures
        cong(
            (n2 * (1 - a * x) - n2) * (1 - b * (x + 1)),
            n2 * (1 - a * x) * (1 - b * x) - n2 * (1 - a * x),
        ),
{
    let ai = a as int;
    let bi = b as int;
    let ji = j as int;
    let e1 = n2 * (1 - ai * x);
    let e0 = e1 * (1 - bi * x);
    let e0s = (e1 - n2) * (1 - bi * (x + 1));
    let t = n2 * x;
    let u = ai * bi;
    assert(e1 == n2 - ai * t) by (nonlinear_arith)
        requires
            e1 == n2 * (1 - ai * x),
            t == n2 * x,
    ;
    assert(e0s == -ai * t + u * (t * x) + u * t) by (nonlinear_arith)
        requires
            e1 == n2 - ai * t,
            e0s == (e1 - n2) * (1 - bi * (x + 1)),
            u == ai * bi,
    ;
    assert(e0 - e1 == -bi * t + u * (t * x)) by (nonlinear_arith)
        requires
            e1 == n2 - ai * t,
            e0 == e1 * (1 - bi * x),
            u == ai * bi,
            t == n2 * x,
    ;
    assert(bi * (1 - (ji - 1) * ai) - ai * (1 - ji * bi) == bi - ai + u) by (nonlinear_arith)
        requires
            u == ai * bi,
    ;
    assert(e0s - (e0 - e1) == t * (bi * (1 - (ji - 1) * ai) - ai * (1 - ji * bi))) by (nonlinear_arith)
        requires
            e0s == -ai * t + u * (t * x) + u * t,
            e0 - e1 == -bi * t + u * (t * x),
            bi * (1 - (ji - 1) * ai) - ai * (1 - ji * bi) == bi - ai + u,
    ;
    assert(cong(1 - (ji - 1) * ai, 0)) by {
        lemma_field_ops_cong((j - 1) as nat, a);
        lemma_cong_sub(1, ((j - 1) * a) as int, 1, 1);
        lemma_small_mod(1, P as nat);
    }
    assert(cong(1 - ji * bi, 0)) by {
        lemma_field_ops_cong(j, b);
        lemma_cong_sub(1, (j * b) as int, 1, 1);
        lemma_small_mod(1, P as nat);
    }
    lemma_cong_mul(bi, 1 - (ji - 1) * ai, bi, 0);
    lemma_cong_mul(ai, 1 - ji * bi, ai, 0);
    lemma_cong_sub(bi * (1 - (ji - 1) * ai), ai * (1 - ji * bi), 0, 0);
    lemma_cong_mul(t, bi * (1 - (ji - 1) * ai) - ai * (1 - ji * bi), t, 0);
    lemma_cong_add(e0s - (e0 - e1), e0 - e1, 0, e0 - e1);
}

/// The Newton basis polynomials of positive degree vanish at the first node.
proof fn lemma_newton_at_one(nodes_inv: Seq<nat>, j: nat)
    requires
        j >= 1,
        inverts_nodes(nodes_inv, 1),
    ensures
        newton_eval(nodes_inv, j, 1) == 0,
    decreases j,
{
    if j == 1 {
        let b = nodes_inv[0];
        assert(fmul(1, b) == 1);
        lemma_small_mod(b, P as nat);
        lemma_small_mod(1, P as nat);
        assert(fmul(b, 1) == 1);
        assert(fsub(1, 1) == 0);
    } else {
        lemma_newton_at_one(nodes_inv, (j - 1) as nat);
    }
}

/// The values of the Newton basis at the nodes are the entries of `U`:
/// `N_j(k + 1) == U(j, k)`.
pub proof fn lemma_newton_at_nodes_is_u(nodes_inv: Seq<nat>, j: nat, k: nat)
    requires
        inverts_nodes(nodes_inv, j),
    ensures
        newton_eval(nodes_inv, j, k + 1) == u_entry(j, k),
    decreases k,
{
    if j == 0 {
    } else if k == 0 {
        lemma_newton_at_one(nodes_inv, j);
    } else {
        lemma_newton_shift(nodes_inv, j, k);
        lemma_newton_at_nodes_is_u(nodes_inv, j, (k - 1) as nat);
        lemma_newton_at_nodes_is_u(nodes_inv, (j - 1) as nat, (k - 1) as nat);
    }
}

// COEFFICIENTS OF THE NEWTON BASIS
// ================================================================================================

/// The coefficients `M(j, 0), ..., M(j, n - 1)` of `N_j`: column `j` of `M` read as a row.
pub open spec fn newton_coefficients(nodes_inv: Seq<nat>, j: nat, n: nat) -> Seq<nat> {
    Seq::new(n, |i: int| m_entry(nodes_inv, j, i as nat))
}

/// The recurrence of `M` holds for every entry of positive row and column.
proof fn lemma_m_entry_step(nodes_inv: Seq<nat>, j: nat, i: nat)
    requires
        j >= 1,
        i >= 1,
    ensures
        m_entry(nodes_inv, j, i) == fsub(
            m_entry(nodes_inv, (j - 1) as nat, i),
            fmul(nodes_inv[j - 1], m_entry(nodes_inv, (j - 1) as nat, (i - 1) as nat)),
        ),
{
    if j < i {
        assert(m_entry(nodes_inv, (j - 1) as nat, i) == 0);
        assert(m_entry(nodes_inv, (j - 1) as nat, (i - 1) as nat) == 0);
        lemma_mul_basics(nodes_inv[j - 1] as int);
        assert(fmul(nodes_inv[j - 1], 0) == 0);
        assert(fsub(0, 0) == 0);
    }
}

/// The coefficients of `c(x) * (1 - b x)`, one more than those of `c`.
pub open spec fn times_linear(c: Seq<nat>, b: nat) -> Seq<nat> {
    Seq::new(
        c.len() + 1,
        |i: int|
            if i == 0 {
                c[0]
            } else if i == c.len() {
                fsub(0, fmul(b, c[i - 1]))
            } else {
                fsub(c[i], fmul(b, c[i - 1]))
            },
    )
}

/// The value of a polynomial is congruent to its constant coefficient plus `x` times the
/// value of the others.
proof fn lemma_poly_value_cong(p: Seq<nat>, x: nat)
    requires
        p.len() > 0,
    ensures
        cong(poly_value(p, x) as int, p[0] as int + x as int * poly_value(p.drop_first(), x) as int),
{
    let q = poly_value(p.drop_first(), x);
    lemma_field_ops_cong(q, x);
    lemma_field_ops_cong(fmul(q, x), p[0]);
    lemma_cong_add(fmul(q, x) as int, p[0] as int, q as int * x as int, p[0] as int);
    assert(q as int * x as int == x as int * q as int) by (nonlinear_arith);
}

/// The value of the tail of `c(x) * (1 - b x)` is `Q (1 - b x) - b c_0`, where `Q` is the
/// value of the tail of `c`.
proof fn lemma_times_linear_tail(c: Seq<nat>, b: nat, x: nat)
    requires
        c.len() >= 1,
        forall|i: int| 0 <= i < c.len() ==> c[i] < P,
        c.len() >= 2 ==> poly_value(times_linear(c.drop_first(), b), x) == fmul(
            poly_value(c.drop_first(), x),
            fsub(1, fmul(b, x)),
        ),
    ensures
        cong(
            poly_value(times_linear(c, b).drop_first(), x) as int,
            poly_value(c.drop_first(), x) as int * (1 - b as int * x as int) - b as int * c[0] as int,
        ),
{
    let m = times_linear(c, b);
    let xi = x as int;
    let bi = b as int;
    let c0 = c[0] as int;
    let fac = fsub(1, fmul(b, x));
    let t = poly_value(m.drop_first(), x);
    let q = poly_value(c.drop_first(), x);
    let qi = q as int;
    lemma_field_ops_cong(b, x);
    lemma_field_ops_cong(1, fmul(b, x));
    lemma_cong_sub(1, fmul(b, x) as int, 1, bi * xi);
    lemma_field_ops_cong(b, c[0]);
    if c.len() == 1 {
        assert(poly_value(m.drop_first().drop_first(), x) == 0);
        assert(poly_value(c.drop_first(), x) == 0);
        lemma_poly_value_cong(m.drop_first(), x);
        lemma_field_ops_cong(0, fmul(b, c[0]));
        lemma_cong_sub(0, fmul(b, c[0]) as int, 0, bi * c0);
        lemma_mul_basics(xi);
        assert(cong(t as int, qi * (1 - bi * xi) - bi * c0));
    } else {
        let mf = times_linear(c.drop_first(), b);
        lemma_field_ops_cong(q, fac);
        lemma_cong_mul(q as int, fac as int, qi, 1 - bi * xi);
        // the tail of m and mf agree but at the first coefficient
        assert(m.drop_first().drop_first() =~= mf.drop_first());
        lemma_poly_value_cong(m.drop_first(), x);
        lemma_poly_value_cong(mf, x);
        lemma_field_ops_cong(c[1], fmul(b, c[0]));
        lemma_cong_sub(c[1] as int, fmul(b, c[0]) as int, c[1] as int, bi * c0);
        let r = poly_value(mf.drop_first(), x) as int;
        let pm = poly_value(mf, x) as int;
        // t ≡ (c1 - b c0) + x r and pm ≡ c1 + x r ≡ Q (1 - b x)
        lemma_cong_add(m.drop_first()[0] as int, xi * r, c[1] as int - bi * c0, xi * r);
        assert(cong(pm, qi * (1 - bi * xi)));
        assert(cong(c[1] as int + xi * r, qi * (1 - bi * xi)));
        lemma_cong_sub(c[1] as int + xi * r, bi * c0, qi * (1 - bi * xi), bi * c0);
    }
}

/// Multiplying the coefficients by `1 - b x` multiplies the value by `1 - b x`.
proof fn lemma_poly_value_times_linear(c: Seq<nat>, b: nat, x: nat)
    requires
        c.len() >= 1,
        forall|i: int| 0 <= i < c.len() ==> c[i] < P,
    ensures
        poly_value(times_linear(c, b), x) == fmul(poly_value(c, x), fsub(1, fmul(b, x))),
    decreases c.len(),
{
    if c.len() >= 2 {
        lemma_poly_value_times_linear(c.drop_first(), b, x);
    }
    lemma_times_linear_tail(c, b, x);
    lemma_times_linear_combine(c, b, x);
}

/// The last step of `lemma_poly_value_times_linear`.
proof fn lemma_times_linear_combine(c: Seq<nat>, b: nat, x: nat)
    requires
        c.len() >= 1,
        forall|i: int| 0 <= i < c.len() ==> c[i] < P,
        cong(
            poly_value(times_linear(c, b).drop_first(), x) as int,
            poly_value(c.drop_first(), x) as int * (1 - b as int * x as int) - b as int * c[0] as int,
        ),
    ensures
        poly_value(times_linear(c, b), x) == fmul(poly_value(c, x), fsub(1, fmul(b, x))),
{
    let m = times_linear(c, b);
    let xi = x as int;
    let bi = b as int;
    let c0 = c[0] as int;
    let fac = fsub(1, fmul(b, x));
    let t = poly_value(m.drop_first(), x);
    let qi = poly_value(c.drop_first(), x) as int;
    lemma_field_ops_cong(b, x);
    lemma_field_ops_cong(1, fmul(b, x));
    lemma_cong_sub(1, fmul(b, x) as int, 1, bi * xi);
    lemma_poly_value_cong(m, x);
    lemma_poly_value_cong(c, x);
    lemma_cong_mul(xi, t as int, xi, qi * (1 - bi * xi) - bi * c0);
    lemma_cong_add(c0, xi * t as int, c0, xi * (qi * (1 - bi * xi) - bi * c0));
    let pc = poly_value(c, x);
    lemma_field_ops_cong(pc, fac);
    lemma_cong_mul(pc as int, fac as int, c0 + xi * qi, 1 - bi * xi);
    assert(c0 + xi * (qi * (1 - bi * xi) - bi * c0) == (c0 + xi * qi) * (1 - bi * xi))
        by (nonlinear_arith);
    lemma_poly_value_lt_p(m, x);
    lemma_small_mod(poly_value(m, x), P as nat);
    lemma_small_mod(fmul(pc, fac), P as nat);
}

/// The value of a polynomial with zero coefficients is zero.
proof fn lemma_poly_value_zeros(p: Seq<nat>, x: nat)
    requires
        forall|i: int| 0 <= i < p.len() ==> p[i] == 0,
    ensures
        poly_value(p, x) == 0,
    decreases p.len(),
{
    if p.len() > 0 {
        lemma_poly_value_zeros(p.drop_first(), x);
        lemma_mul_basics(x as int);
    }
}

/// The coefficients of `N_j` are those of `N_{j-1}` times `1 - x / j`.
proof fn lemma_newton_coefficients_step(nodes_inv: Seq<nat>, j: nat, n: nat)
    requires
        1 <= j < n,
    ensures
        newton_coefficients(nodes_inv, j, n) == times_linear(
            newton_coefficients(nodes_inv, (j - 1) as nat, (n - 1) as nat),
            nodes_inv[j - 1],
        ),
{
    let c = newton_coefficients(nodes_inv, (j - 1) as nat, (n - 1) as nat);
    let t = times_linear(c, nodes_inv[j - 1]);
    assert forall|i: int| 0 <= i < n implies #[trigger] newton_coefficients(nodes_inv, j, n)[i] == t[i] by {
        if i > 0 {
            lemma_m_entry_step(nodes_inv, j, i as nat);
        }
    }
    assert(newton_coefficients(nodes_inv, j, n) =~= t);
}

/// The coefficients of `N_j` are canonical values.
proof fn lemma_m_entry_lt_p(nodes_inv: Seq<nat>, j: nat, i: nat)
    ensures
        m_entry(nodes_inv, j, i) < P,
{
}

/// The coefficients of `N_j` give its value: `Σ_i M(j, i) x^i == N_j(x)`.
pub proof fn lemma_newton_coefficients_value(nodes_inv: Seq<nat>, j: nat, n: nat, x: nat)
    requires
        j < n,
    ensures
        poly_value(newton_coefficients(nodes_inv, j, n), x) == newton_eval(nodes_inv, j, x),
    decreases j,
{
    let c = newton_coefficients(nodes_inv, j, n);
    if j == 0 {
        lemma_poly_value_zeros(c.drop_first(), x);
        lemma_mul_basics(x as int);
        lemma_small_mod(1, P as nat);
    } else {
        lemma_newton_coefficients_value(nodes_inv, (j - 1) as nat, (n - 1) as nat, x);
        lemma_newton_coefficients_step(nodes_inv, j, n);
        let prev = newton_coefficients(nodes_inv, (j - 1) as nat, (n - 1) as nat);
        assert forall|i: int| 0 <= i < prev.len() implies prev[i] < P by {
            lemma_m_entry_lt_p(nodes_inv, (j - 1) as nat, i as nat);
        }
        lemma_poly_value_times_linear(prev, nodes_inv[j - 1], x);
    }
}

// THE COLUMNS OF M AS A COMBINATION
// ================================================================================================

/// The value of a pointwise sum is the sum of the values.
proof fn lemma_poly_value_add(u: Seq<nat>, w: Seq<nat>, x: nat)
    requires
        u.len() == w.len(),
    ensures
        poly_value(Seq::new(u.len(), |i: int| fadd(u[i], w[i])), x) == fadd(poly_value(u, x), poly_value(w, x)),
    decreases u.len(),
{
    let s = Seq::new(u.len(), |i: int| fadd(u[i], w[i]));
    if u.len() > 0 {
        lemma_poly_value_add(u.drop_first(), w.drop_first(), x);
        assert(s.drop_first() =~= Seq::new(u.drop_first().len(), |i: int| fadd(u.drop_first()[i], w.drop_first()[i])));
        let a = poly_value(u.drop_first(), x);
        let b = poly_value(w.drop_first(), x);
        let xi = x as int;
        lemma_poly_value_cong(s, x);
        lemma_poly_value_cong(u, x);
        lemma_poly_value_cong(w, x);
        lemma_field_ops_cong(u[0], w[0]);
        lemma_field_ops_cong(a, b);
        lemma_cong_mul(xi, fadd(a, b) as int, xi, a as int + b as int);
        lemma_cong_add(s[0] as int, xi * fadd(a, b) as int, u[0] as int + w[0] as int, xi * (a as int + b as int));
        let pu = poly_value(u, x);
        let pw = poly_value(w, x);
        lemma_field_ops_cong(pu, pw);
        lemma_cong_add(pu as int, pw as int, u[0] as int + xi * a as int, w[0] as int + xi * b as int);
        assert(u[0] as int + w[0] as int + xi * (a as int + b as int) == u[0] as int + xi * a as int + (
        w[0] as int + xi * b as int)) by (nonlinear_arith);
        lemma_poly_value_lt_p(s, x);
        lemma_small_mod(poly_value(s, x), P as nat);
        lemma_small_mod(fadd(pu, pw), P as nat);
    }
}

/// The value of a scaled polynomial is the scaled value.
proof fn lemma_poly_value_scale(k: nat, u: Seq<nat>, x: nat)
    ensures
        poly_value(Seq::new(u.len(), |i: int| fmul(k, u[i])), x) == fmul(k, poly_value(u, x)),
    decreases u.len(),
{
    let s = Seq::new(u.len(), |i: int| fmul(k, u[i]));
    if u.len() == 0 {
        lemma_mul_basics(k as int);
    } else {
        lemma_poly_value_scale(k, u.drop_first(), x);
        assert(s.drop_first() =~= Seq::new(u.drop_first().len(), |i: int| fmul(k, u.drop_first()[i])));
        let a = poly_value(u.drop_first(), x);
        let xi = x as int;
        let ki = k as int;
        lemma_poly_value_cong(s, x);
        lemma_poly_value_cong(u, x);
        lemma_field_ops_cong(k, u[0]);
        lemma_field_ops_cong(k, a);
        lemma_cong_mul(xi, fmul(k, a) as int, xi, ki * a as int);
        lemma_cong_add(s[0] as int, xi * fmul(k, a) as int, ki * u[0] as int, xi * (ki * a as int));
        let pu = poly_value(u, x);
        lemma_field_ops_cong(k, pu);
        lemma_cong_mul(ki, pu as int, ki, u[0] as int + xi * a as int);
        assert(ki * u[0] as int + xi * (ki * a as int) == ki * (u[0] as int + xi * a as int)) by (nonlinear_arith);
        lemma_poly_value_lt_p(s, x);
        lemma_small_mod(poly_value(s, x), P as nat);
        lemma_small_mod(fmul(k, pu), P as nat);
    }
}

/// The combination `Σ_{j < J} c_j * (column j of M)`, as coefficients of length `n`.
pub open spec fn partial_combination(c: Seq<nat>, nodes_inv: Seq<nat>, J: nat, n: nat) -> Seq<nat> {
    Seq::new(n, |i: int| fsum(Seq::new(J, |j: int| fmul(c[j], m_entry(nodes_inv, j as nat, i as nat)))))
}

/// The value of `Σ_{j < J} c_j N_j` is `Σ_{j < J} c_j N_j(x)`.
proof fn lemma_partial_combination_value(c: Seq<nat>, nodes_inv: Seq<nat>, J: nat, n: nat, x: nat)
    requires
        J <= n,
        J <= c.len(),
    ensures
        poly_value(partial_combination(c, nodes_inv, J, n), x) == fsum(
            Seq::new(J, |j: int| fmul(c[j], newton_eval(nodes_inv, j as nat, x))),
        ),
    decreases J,
{
    let v = partial_combination(c, nodes_inv, J, n);
    let rhs = Seq::new(J, |j: int| fmul(c[j], newton_eval(nodes_inv, j as nat, x)));
    if J == 0 {
        assert forall|i: int| 0 <= i < n implies v[i] == 0 by {
            assert(Seq::new(0, |j: int| fmul(c[j], m_entry(nodes_inv, j as nat, i as nat))).len() == 0);
        }
        lemma_poly_value_zeros(v, x);
        assert(rhs.len() == 0);
    } else {
        let jj = (J - 1) as nat;
        let prev = partial_combination(c, nodes_inv, jj, n);
        lemma_partial_combination_value(c, nodes_inv, jj, n, x);
        let col = newton_coefficients(nodes_inv, jj, n);
        let scaled = Seq::new(col.len(), |i: int| fmul(c[jj as int], col[i]));
        assert forall|i: int| 0 <= i < n implies #[trigger] v[i] == fadd(prev[i], scaled[i]) by {
            let terms = Seq::new(J, |j: int| fmul(c[j], m_entry(nodes_inv, j as nat, i as nat)));
            lemma_fsum_prefix(terms, jj as int);
            assert(terms.take(J as int) =~= terms);
            assert(terms.take(jj as int) =~= Seq::new(jj, |j: int| fmul(c[j], m_entry(nodes_inv, j as nat, i as nat))));
        }
        assert(v =~= Seq::new(prev.len(), |i: int| fadd(prev[i], scaled[i])));
        lemma_poly_value_add(prev, scaled, x);
        lemma_poly_value_scale(c[jj as int], col, x);
        lemma_newton_coefficients_value(nodes_inv, jj, n, x);
        lemma_fsum_prefix(rhs, jj as int);
        assert(rhs.take(J as int) =~= rhs);
        assert(rhs.take(jj as int) =~= Seq::new(jj, |j: int| fmul(c[j], newton_eval(nodes_inv, j as nat, x))));
    }
}

/// A sum whose first `i` terms vanish is the sum of the others.
proof fn lemma_fsum_skip_zeros(s: Seq<nat>, i: nat)
    requires
        i <= s.len(),
        forall|j: int| 0 <= j < i ==> s[j] == 0,
    ensures
        fsum(s) == fsum(s.subrange(i as int, s.len() as int)),
    decreases i,
{
    if i == 0 {
        assert(s.subrange(0, s.len() as int) =~= s);
    } else {
        lemma_fsum_first(s);
        lemma_fsum_lt_p(s.drop_first());
        lemma_fadd_zero(fsum(s.drop_first()));
        lemma_fsum_skip_zeros(s.drop_first(), (i - 1) as nat);
        assert(s.drop_first().subrange(i - 1, s.drop_first().len() as int) =~= s.subrange(
            i as int,
            s.len() as int,
        ));
    }
}

/// A sum whose terms from index `m` on vanish is the sum of the first `m`.
pub proof fn lemma_fsum_drop_zeros(s: Seq<nat>, m: nat)
    requires
        m <= s.len(),
        forall|j: int| m <= j < s.len() ==> s[j] == 0,
    ensures
        fsum(s) == fsum(s.take(m as int)),
    decreases s.len(),
{
    if s.len() == m {
        assert(s.take(m as int) =~= s);
    } else {
        lemma_fsum_drop_zeros(s.drop_last(), m);
        assert(s.drop_last().take(m as int) =~= s.take(m as int));
        lemma_fsum_lt_p(s.drop_last());
        lemma_fadd_zero(fsum(s.drop_last()));
    }
}

/// A field sum is canonical.
proof fn lemma_fsum_lt_p(s: Seq<nat>)
    ensures
        fsum(s) < P,
    decreases s.len(),
{
}

/// `v * M` is the combination of the columns of `M` with the coefficients `v`.
proof fn lemma_times_m_is_combination(c: Seq<nat>, nodes_inv: Seq<nat>)
    ensures
        times_m(c, nodes_inv) == partial_combination(c, nodes_inv, c.len(), c.len()),
{
    let n = c.len();
    let v = partial_combination(c, nodes_inv, n, n);
    assert forall|i: int| 0 <= i < n implies #[trigger] times_m(c, nodes_inv)[i] == v[i] by {
        let t = Seq::new(n, |j: int| fmul(c[j], m_entry(nodes_inv, j as nat, i as nat)));
        assert forall|j: int| 0 <= j < i implies t[j] == 0 by {
            lemma_mul_basics(c[j] as int);
        }
        lemma_fsum_skip_zeros(t, i as nat);
        assert(t.subrange(i, n as int) =~= m_terms(c, nodes_inv, i as nat));
    }
    assert(times_m(c, nodes_inv) =~= v);
}

/// The values of a polynomial at the nodes `1, ..., n`.
pub open spec fn values_at_nodes(a: Seq<nat>, n: nat) -> Seq<nat> {
    Seq::new(n, |k: int| poly_value(a, (k + 1) as nat))
}

/// The values at the nodes of the combination `v * M` of the Newton basis are `v * U`.
pub proof fn lemma_values_of_combination(c: Seq<nat>, nodes_inv: Seq<nat>)
    requires
        c.len() >= 1,
        inverts_nodes(nodes_inv, (c.len() - 1) as nat),
    ensures
        values_at_nodes(times_m(c, nodes_inv), c.len()) == times_u(c),
{
    let n = c.len();
    lemma_times_m_is_combination(c, nodes_inv);
    assert forall|k: int| 0 <= k < n implies #[trigger] values_at_nodes(times_m(c, nodes_inv), n)[k]
        == times_u(c)[k] by {
        lemma_partial_combination_value(c, nodes_inv, n, n, (k + 1) as nat);
        let s = Seq::new(n, |j: int| fmul(c[j], newton_eval(nodes_inv, j as nat, (k + 1) as nat)));
        let t = Seq::new(n, |j: int| fmul(c[j], u_entry(j as nat, k as nat)));
        assert forall|j: int| 0 <= j < n implies s[j] == t[j] by {
            lemma_newton_at_nodes_is_u(nodes_inv, j as nat, k as nat);
        }
        assert(s =~= t);
        assert forall|j: int| k + 1 <= j < n implies t[j] == 0 by {
            lemma_iu_upper_triangular(j as nat, k as nat);
            lemma_u_entry_is_iu(j as nat, k as nat);
            lemma_mul_basics(c[j] as int);
        }
        lemma_fsum_drop_zeros(t, (k + 1) as nat);
        assert(t.take(k + 1) =~= u_terms(c, k as nat));
    }
    assert(values_at_nodes(times_m(c, nodes_inv), n) =~= times_u(c));
}

// EVERY COEFFICIENT VECTOR IS A COMBINATION OF THE COLUMNS OF M
// ================================================================================================

/// The inverse of the diagonal entry `M(j, j) = ∏_{l=1..j} (-1 / l)`: `∏_{l=1..j} (-l)`.
pub open spec fn diagonal_inverse(j: nat) -> nat
    decreases j,
{
    if j == 0 {
        1
    } else {
        fmul(diagonal_inverse((j - 1) as nat), fsub(0, j))
    }
}

/// The diagonal of `M` is invertible.
proof fn lemma_diagonal_inverse(nodes_inv: Seq<nat>, j: nat)
    requires
        inverts_nodes(nodes_inv, j),
    ensures
        fmul(m_entry(nodes_inv, j, j), diagonal_inverse(j)) == 1,
    decreases j,
{
    lemma_small_mod(1, P as nat);
    if j == 0 {
        assert(m_entry(nodes_inv, 0, 0) == 1);
        assert(diagonal_inverse(0) == 1);
        assert(fmul(1, 1) == 1);
    } else {
        let jj = (j - 1) as nat;
        lemma_diagonal_inverse(nodes_inv, jj);
        let b = nodes_inv[j - 1];
        let md = m_entry(nodes_inv, jj, jj);
        let di = diagonal_inverse(jj);
        assert(m_entry(nodes_inv, jj, j) == 0);
        assert(fmul((jj + 1) as nat, b) == 1);
        // M(j, j) ≡ -(b M(j-1, j-1)) and its inverse ≡ di (-j)
        lemma_field_ops_cong(b, md);
        lemma_field_ops_cong(0, fmul(b, md));
        lemma_cong_sub(0, fmul(b, md) as int, 0, b as int * md as int);
        lemma_field_ops_cong(0, j);
        lemma_field_ops_cong(di, fsub(0, j));
        lemma_cong_mul(di as int, fsub(0, j) as int, di as int, 0 - j as int);
        let mj = m_entry(nodes_inv, j, j);
        let dj = diagonal_inverse(j);
        assert(mj == fsub(0, fmul(b, md)));
        assert(dj == fmul(di, fsub(0, j)));
        assert(cong(mj as int, 0 - b as int * md as int));
        assert(cong(dj as int, di as int * (0 - j as int)));
        lemma_field_ops_cong(mj, dj);
        lemma_cong_mul(mj as int, dj as int, 0 - b as int * md as int, di as int * (0 - j as int));
        assert((0 - b as int * md as int) * (di as int * (0 - j as int)) == (j as int * b as int) * (
        md as int * di as int)) by (nonlinear_arith);
        lemma_field_ops_cong(j, b);
        lemma_field_ops_cong(md, di);
        lemma_cong_mul(j as int * b as int, md as int * di as int, 1, 1);
        assert(cong(fmul(mj, dj) as int, 1));
        lemma_small_mod(fmul(mj, dj), P as nat);
    }
}

/// Back-substitution: the coefficients `c_lo, ..., c_{n-1}` of a combination of the columns
/// of `M` that gives the entries `a_lo, ..., a_{n-1}`.
pub open spec fn back_substitution(a: Seq<nat>, nodes_inv: Seq<nat>, lo: nat) -> Seq<nat>
    decreases a.len() - lo,
{
    if lo >= a.len() {
        seq![]
    } else {
        let rest = back_substitution(a, nodes_inv, lo + 1);
        let s = fsum(Seq::new(rest.len(), |k: int| fmul(rest[k], m_entry(nodes_inv, (lo + 1 + k) as nat, lo))));
        seq![fmul(fsub(a[lo as int], s), diagonal_inverse(lo))] + rest
    }
}

/// The length of the back-substitution.
proof fn lemma_back_substitution_len(a: Seq<nat>, nodes_inv: Seq<nat>, lo: nat)
    requires
        lo <= a.len(),
    ensures
        back_substitution(a, nodes_inv, lo).len() == a.len() - lo,
        forall|k: int| 0 <= k < a.len() - lo ==> #[trigger] back_substitution(a, nodes_inv, lo)[k] < P,
    decreases a.len() - lo,
{
    if lo < a.len() {
        lemma_back_substitution_len(a, nodes_inv, lo + 1);
    }
}

/// The back-substitution solves the rows `lo, ..., n - 1` of `c * M == a`.
proof fn lemma_back_substitution_solves(a: Seq<nat>, nodes_inv: Seq<nat>, lo: nat, i: nat)
    requires
        lo <= i < a.len(),
        a[i as int] < P,
        inverts_nodes(nodes_inv, (a.len() - 1) as nat),
    ensures
        fsum(
            Seq::new(
                (a.len() - i) as nat,
                |k: int| fmul(back_substitution(a, nodes_inv, lo)[i - lo + k], m_entry(nodes_inv, (i + k) as nat, i)),
            ),
        ) == a[i as int],
    decreases a.len() - lo,
{
    let n = a.len();
    let bs = back_substitution(a, nodes_inv, lo);
    let rest = back_substitution(a, nodes_inv, lo + 1);
    lemma_back_substitution_len(a, nodes_inv, lo + 1);
    let t = Seq::new((n - i) as nat, |k: int| fmul(bs[i - lo + k], m_entry(nodes_inv, (i + k) as nat, i)));
    if i > lo {
        lemma_back_substitution_solves(a, nodes_inv, lo + 1, i);
        assert(t =~= Seq::new(
            (n - i) as nat,
            |k: int| fmul(rest[i - (lo + 1) + k], m_entry(nodes_inv, (i + k) as nat, i)),
        ));
    } else {
        let st = Seq::new(rest.len(), |k: int| fmul(rest[k], m_entry(nodes_inv, (lo + 1 + k) as nat, lo)));
        let s = fsum(st);
        let c = fmul(fsub(a[lo as int], s), diagonal_inverse(lo));
        let md = m_entry(nodes_inv, lo, lo);
        let di = diagonal_inverse(lo);
        lemma_fsum_first(t);
        assert(t.drop_first() =~= st);
        assert(t[0] == fmul(c, md));
        lemma_diagonal_inverse(nodes_inv, lo);
        // c M ≡ (a - s) di M ≡ a - s
        let d = fsub(a[lo as int], s);
        lemma_field_ops_cong(a[lo as int], s);
        lemma_field_ops_cong(d, di);
        lemma_field_ops_cong(c, md);
        lemma_field_ops_cong(md, di);
        lemma_cong_mul(c as int, md as int, d as int * di as int, md as int);
        assert(d as int * di as int * md as int == d as int * (md as int * di as int)) by (nonlinear_arith);
        lemma_cong_mul(d as int, md as int * di as int, a[lo as int] as int - s as int, 1);
        lemma_field_ops_cong(fmul(c, md), s);
        lemma_cong_add(fmul(c, md) as int, s as int, a[lo as int] as int - s as int, s as int);
        lemma_small_mod(a[lo as int], P as nat);
        lemma_small_mod(fadd(fmul(c, md), s), P as nat);
    }
}

/// Every coefficient vector is a combination of the columns of `M`: `c * M == a` for the
/// back-substitution `c`.
pub proof fn lemma_times_m_onto(a: Seq<nat>, nodes_inv: Seq<nat>) -> (c: Seq<nat>)
    requires
        a.len() >= 1,
        forall|i: int| 0 <= i < a.len() ==> a[i] < P,
        inverts_nodes(nodes_inv, (a.len() - 1) as nat),
    ensures
        c.len() == a.len(),
        forall|i: int| 0 <= i < c.len() ==> c[i] < P,
        times_m(c, nodes_inv) == a,
{
    let c = back_substitution(a, nodes_inv, 0);
    lemma_back_substitution_len(a, nodes_inv, 0);
    assert forall|i: int| 0 <= i < a.len() implies #[trigger] times_m(c, nodes_inv)[i] == a[i] by {
        lemma_back_substitution_solves(a, nodes_inv, 0, i as nat);
        assert(m_terms(c, nodes_inv, i as nat) =~= Seq::new(
            (a.len() - i) as nat,
            |k: int| fmul(c[i - 0 + k], m_entry(nodes_inv, (i + k) as nat, i as nat)),
        ));
    }
    assert(times_m(c, nodes_inv) =~= a);
    c
}

// INTERPOLATION
// ================================================================================================

/// Interpolation over the nodes `1, ..., n`: multiplying the values at the nodes of a
/// polynomial with `n` coefficients by `U` and then by `M` (what
/// `multiply_by_inverse_vandermonde` computes) gives back its coefficients, for any inverses
/// of the nodes.
pub proof fn lemma_inverse_vandermonde_interpolates(a: Seq<nat>, nodes_inv: Seq<nat>)
    requires
        a.len() >= 1,
        forall|i: int| 0 <= i < a.len() ==> a[i] < P,
        inverts_nodes(nodes_inv, (a.len() - 1) as nat),
    ensures
        times_m(times_u(values_at_nodes(a, a.len())), nodes_inv) == a,
{
    let c = lemma_times_m_onto(a, nodes_inv);
    lemma_values_of_combination(c, nodes_inv);
    lemma_times_u_involutory(c);
}

/// `a` has a multiplicative inverse in the field.
pub open spec fn invertible(a: nat) -> bool {
    exists|b: nat| b < P && fmul(a, b) == 1
}

/// The nodes `1, ..., n` (below `P`) are invertible, the field being prime.
pub proof fn lemma_nodes_invertible(n: nat)
    requires
        n < P,
    ensures
        forall|k: nat| 1 <= k <= n ==> #[trigger] invertible(k),
{
    assert forall|k: nat| 1 <= k <= n implies #[trigger] invertible(k) by {
        lemma_nonzero_is_invertible(k);
    }
}

/// The evaluations of `q(x) = (p(x) - p(0)) / x` that `to_poly` computes are the values of the
/// polynomial with the coefficients of `p` but the constant one.
proof fn lemma_q_evaluations(p: Seq<nat>)
    requires
        p.len() >= 2,
        forall|i: int| 0 <= i < p.len() ==> p[i] < P,
        forall|k: nat| 1 <= k < p.len() ==> #[trigger] invertible(k),
    ensures
        q_evaluations(values_at_nodes(p, (p.len() - 1) as nat), fadd(poly_value(p, 0), poly_value(p, 1)))
            == values_at_nodes(p.drop_first(), (p.len() - 1) as nat),
        zeroth_coefficient(values_at_nodes(p, (p.len() - 1) as nat), fadd(poly_value(p, 0), poly_value(p, 1)))
            == p[0],
{
    let n = (p.len() - 1) as nat;
    let pe = values_at_nodes(p, n);
    let claim = fadd(poly_value(p, 0), poly_value(p, 1));
    let q = p.drop_first();
    let p0 = p[0];
    // p(0) = p0
    lemma_poly_value_cong(p, 0);
    lemma_small_mod(p0, P as nat);
    lemma_poly_value_lt_p(p, 0);
    lemma_small_mod(poly_value(p, 0), P as nat);
    assert(poly_value(p, 0) == p0);
    // c0 = (p0 + p(1)) - p(1) = p0
    let p1v = poly_value(p, 1);
    lemma_field_ops_cong(p0, p1v);
    lemma_field_ops_cong(claim, p1v);
    lemma_cong_sub(claim as int, p1v as int, p0 as int + p1v as int, p1v as int);
    lemma_small_mod(fsub(claim, p1v), P as nat);
    assert(zeroth_coefficient(pe, claim) == p0);
    // q(i + 1) = (p(i + 1) - p0) / (i + 1)
    assert forall|i: int| 0 <= i < n implies #[trigger] q_evaluations(pe, claim)[i] == values_at_nodes(q, n)[i] by {
        let x = (i + 1) as nat;
        let qv = poly_value(q, x);
        let px = poly_value(p, x);
        assert(invertible(x));
        let f = finv(x);
        assert(f < P && fmul(x, f) == 1);
        lemma_poly_value_cong(p, x);
        lemma_field_ops_cong(px, p0);
        lemma_cong_sub(px as int, p0 as int, p0 as int + x as int * qv as int, p0 as int);
        let d = fsub(px, p0);
        lemma_field_ops_cong(d, f);
        lemma_cong_mul(d as int, f as int, x as int * qv as int, f as int);
        assert(x as int * qv as int * f as int == qv as int * (x as int * f as int)) by (nonlinear_arith);
        lemma_field_ops_cong(x, f);
        lemma_cong_mul(qv as int, x as int * f as int, qv as int, 1);
        lemma_poly_value_lt_p(q, x);
        lemma_small_mod(qv, P as nat);
        lemma_small_mod(fmul(d, f), P as nat);
    }
    assert(q_evaluations(pe, claim) =~= values_at_nodes(q, n));
}

/// Interpolation of a round polynomial: for a polynomial `p` of degree `n` with `n >= 1`,
/// `to_poly` on its values at `1, ..., n` and the claim `p(0) + p(1)` returns the
/// coefficients of `p` but the linear one, and `evaluate_using_claim` puts the linear
/// coefficient back, so that it evaluates `p` itself. The nodes `1, ..., n` lie below `P`.
pub proof fn lemma_to_poly_interpolates(p: Seq<nat>)
    requires
        p.len() >= 2,
        forall|i: int| 0 <= i < p.len() ==> p[i] < P,
        p.len() <= P,
    ensures
        to_poly_coefficients(
            values_at_nodes(p, (p.len() - 1) as nat),
            fadd(poly_value(p, 0), poly_value(p, 1)),
        ) == seq![p[0]] + p.subrange(2, p.len() as int),
        complete_coefficients(
            to_poly_coefficients(
                values_at_nodes(p, (p.len() - 1) as nat),
                fadd(poly_value(p, 0), poly_value(p, 1)),
            ),
            fadd(poly_value(p, 0), poly_value(p, 1)),
        ) == p,
{
    lemma_nodes_invertible((p.len() - 1) as nat);
    let n = (p.len() - 1) as nat;
    let pe = values_at_nodes(p, n);
    let claim = fadd(poly_value(p, 0), poly_value(p, 1));
    let q = p.drop_first();
    lemma_q_evaluations(p);
    // the inverses of the nodes
    let ninv = nodes_inv(n);
    assert forall|k: int| 0 <= k < n implies #[trigger] ninv[k] < P && fmul((k + 1) as nat, ninv[k]) == 1 by {
        assert(invertible((k + 1) as nat));
    }
    lemma_inverse_vandermonde_interpolates(q, ninv);
    let coefs = to_poly_coefficients(pe, claim);
    assert(coefs =~= seq![p[0]] + p.subrange(2, p.len() as int));
    lemma_linear_coefficient_recovered(p);
}

/// The coefficients of `q(x) = (p(x) - p(0)) / x` that `to_poly` interpolates take the values
/// of `q` at the nodes, and their inverses are those of the nodes.
proof fn lemma_q_coefficients_take_the_values(e: Seq<nat>, claim: nat)
    requires
        e.len() >= 1,
        forall|k: nat| 1 <= k <= e.len() ==> #[trigger] invertible(k),
    ensures
        inverts_nodes(nodes_inv(e.len()), e.len()),
        values_at_nodes(times_m(times_u(q_evaluations(e, claim)), nodes_inv(e.len())), e.len())
            == q_evaluations(e, claim),
{
    let n = e.len();
    let qe = q_evaluations(e, claim);
    let ninv = nodes_inv(n);
    assert forall|k: int| 0 <= k < n implies #[trigger] ninv[k] < P && fmul((k + 1) as nat, ninv[k])
        == 1 by {
        assert(invertible((k + 1) as nat));
    }
    let tu = times_u(qe);
    assert forall|i: int| 0 <= i < n implies #[trigger] tu[i] < P by {
        lemma_fsum_lt_p(u_terms(qe, i as nat));
    }
    lemma_values_of_combination(tu, ninv);
    lemma_times_u_involutory(qe);
}

/// The field algebra of the recovered linear coefficient: with `c0 = claim - e0` and
/// `q0 + s = e0 - c0`, `(claim - (c0 + s)) - c0 = q0`.
proof fn lemma_linear_coefficient_algebra(claim: nat, e0: nat, c0: nat, q0: nat, s: nat)
    requires
        claim < P,
        e0 < P,
        q0 < P,
        c0 == fsub(claim, e0),
        fadd(q0, s) == fsub(e0, c0),
    ensures
        fsub(fsub(claim, fadd(c0, s)), c0) == q0,
{
    let l = fsub(fsub(claim, fadd(c0, s)), c0);
    let (ci, ki, e0i, si, q0i) = (c0 as int, claim as int, e0 as int, s as int, q0 as int);
    lemma_field_ops_cong(claim, e0);
    lemma_field_ops_cong(e0, c0);
    lemma_field_ops_cong(q0, s);
    assert(cong(q0i + si, e0i - ci));
    lemma_field_ops_cong(c0, s);
    let f = fadd(c0, s);
    lemma_field_ops_cong(claim, f);
    lemma_cong_sub(ki, f as int, ki, ci + si);
    let g = fsub(claim, f);
    lemma_field_ops_cong(g, c0);
    lemma_cong_sub(g as int, ci, ki - ci - si, ci);
    assert(cong(l as int, ki - ci - si - ci));
    lemma_cong_sub(ki - ci - ci, q0i + si, ki - ci - ci, e0i - ci);
    lemma_cong_sub(ki - e0i, ci, ki - e0i, ki - e0i);
    lemma_cong_sub(l as int, q0i, ki - ci - si - ci, q0i);
    lemma_cong_add(l as int - q0i, q0i, 0, q0i);
    lemma_small_mod(l, P as nat);
    lemma_small_mod(q0, P as nat);
}

/// With the claim, the linear coefficient that the completion puts back is the constant
/// coefficient of the interpolated `q`: the completed coefficients are `c0` followed by those
/// of `q`.
proof fn lemma_completion_is_c0_then_q(e: Seq<nat>, claim: nat)
    requires
        e.len() >= 1,
        forall|i: int| 0 <= i < e.len() ==> e[i] < P,
        claim < P,
        inverts_nodes(nodes_inv(e.len()), e.len()),
        values_at_nodes(times_m(times_u(q_evaluations(e, claim)), nodes_inv(e.len())), e.len())
            == q_evaluations(e, claim),
    ensures
        complete_coefficients(to_poly_coefficients(e, claim), claim) == seq![
            zeroth_coefficient(e, claim),
        ] + times_m(times_u(q_evaluations(e, claim)), nodes_inv(e.len())),
{
    let n = e.len();
    let c0 = zeroth_coefficient(e, claim);
    let qe = q_evaluations(e, claim);
    let ninv = nodes_inv(n);
    let qc = times_m(times_u(qe), ninv);
    let coefs = to_poly_coefficients(e, claim);
    let tail = qc.subrange(1, n as int);
    assert(coefs =~= seq![c0] + tail);
    let s = fsum(tail);
    lemma_fsum_first(coefs);
    assert(coefs.drop_first() =~= tail);
    lemma_fsum_first(qc);
    assert(qc.drop_first() =~= tail);
    lemma_poly_value_at_one(qc);
    assert(poly_value(qc, 1) == values_at_nodes(qc, n)[0]);
    // q(1) = (e0 - c0) / 1 = e0 - c0
    assert(fmul(1, ninv[0]) == 1);
    lemma_fmul_one(ninv[0]);
    lemma_fmul_one(fsub(e[0], c0));
    assert(qe[0] == fsub(e[0], c0));
    assert(fsum(qc) == fadd(qc[0], s));
    lemma_linear_coefficient_algebra(claim, e[0], c0, qc[0], s);
    assert(linear_coefficient(coefs, claim) == qc[0]);
    assert(complete_coefficients(coefs, claim) =~= seq![c0] + qc);
}

/// `to_poly` interpolates: the polynomial it describes, with the linear coefficient put back
/// from the claim as `evaluate_using_claim` does, takes the given values at `1, ..., n` (and,
/// by `lemma_claim_is_sum_at_zero_and_one`, satisfies `p(0) + p(1) = claim`). The nodes
/// `1, ..., n` lie below `P`.
pub proof fn lemma_to_poly_takes_the_values(e: Seq<nat>, claim: nat)
    requires
        e.len() >= 1,
        forall|i: int| 0 <= i < e.len() ==> e[i] < P,
        claim < P,
        e.len() < P,
    ensures
        values_at_nodes(complete_coefficients(to_poly_coefficients(e, claim), claim), e.len()) == e,
{
    lemma_nodes_invertible(e.len());
    let n = e.len();
    let c0 = zeroth_coefficient(e, claim);
    let qe = q_evaluations(e, claim);
    let ninv = nodes_inv(n);
    lemma_q_coefficients_take_the_values(e, claim);
    lemma_completion_is_c0_then_q(e, claim);
    let qc = times_m(times_u(qe), ninv);
    let full = seq![c0] + qc;
    // p(k + 1) = c0 + (k + 1) * q(k + 1) = c0 + (e_k - c0) = e_k
    assert(full.drop_first() =~= qc);
    assert forall|k: int| 0 <= k < n implies #[trigger] values_at_nodes(full, n)[k] == e[k] by {
        let x = (k + 1) as nat;
        let inv = ninv[k];
        assert(inv < P && fmul(x, inv) == 1);
        let qv = poly_value(qc, x);
        assert(qv == values_at_nodes(qc, n)[k]);
        let d = fsub(e[k], c0);
        let ek = e[k] as int;
        let ci = c0 as int;
        let pv = poly_value(full, x);
        lemma_poly_value_cong(full, x);
        lemma_field_ops_cong(d, inv);
        lemma_field_ops_cong(e[k], c0);
        lemma_cong_mul(d as int, inv as int, ek - ci, inv as int);
        assert(cong(qv as int, (ek - ci) * inv as int));
        lemma_cong_mul(x as int, qv as int, x as int, (ek - ci) * inv as int);
        assert(x as int * ((ek - ci) * inv as int) == (ek - ci) * (x as int * inv as int))
            by (nonlinear_arith);
        lemma_field_ops_cong(x, inv);
        lemma_cong_mul(ek - ci, x as int * inv as int, ek - ci, 1);
        lemma_cong_add(ci, x as int * qv as int, ci, ek - ci);
        lemma_small_mod(e[k], P as nat);
        lemma_poly_value_lt_p(full, x);
        lemma_small_mod(pv, P as nat);
    }
    assert(values_at_nodes(full, n) =~= e);
}

/// With the claim `p(0) + p(1)`, the coefficients of `p` without the linear one give the
/// linear one back.
proof fn lemma_linear_coefficient_recovered(p: Seq<nat>)
    requires
        p.len() >= 2,
        forall|i: int| 0 <= i < p.len() ==> p[i] < P,
    ensures
        complete_coefficients(
            seq![p[0]] + p.subrange(2, p.len() as int),
            fadd(poly_value(p, 0), poly_value(p, 1)),
        ) == p,
{
    let claim = fadd(poly_value(p, 0), poly_value(p, 1));
    let coefs = seq![p[0]] + p.subrange(2, p.len() as int);
    let q = p.drop_first();
    // p(0) = p0
    lemma_poly_value_cong(p, 0);
    lemma_small_mod(p[0], P as nat);
    lemma_poly_value_lt_p(p, 0);
    lemma_small_mod(poly_value(p, 0), P as nat);
    // the linear coefficient: (p0 + p(1)) - (p0 + R) - p0 = p1, with R the sum of p2, ...
    let r = p.subrange(2, p.len() as int);
    let rs = fsum(r);
    lemma_poly_value_at_one(p);
    lemma_fsum_first(p);
    lemma_fsum_first(q);
    assert(q.drop_first() =~= r);
    lemma_fsum_first(coefs);
    assert(coefs.drop_first() =~= r);
    let p0 = p[0] as int;
    let p1 = p[1] as int;
    let ri = rs as int;
    let sp = fsum(p);
    let sq = fsum(q);
    lemma_field_ops_cong(p[1], rs);
    lemma_field_ops_cong(p[0], sq);
    lemma_cong_add(p0, sq as int, p0, p1 + ri);
    assert(cong(sp as int, p0 + p1 + ri));
    let sc = fsum(coefs);
    lemma_field_ops_cong(p[0], rs);
    assert(cong(sc as int, p0 + ri));
    assert(poly_value(p, 0) == p[0]);
    lemma_field_ops_cong(p[0], sp);
    lemma_cong_add(p0, sp as int, p0, p0 + p1 + ri);
    assert(cong(claim as int, p0 + p0 + p1 + ri));
    lemma_field_ops_cong(claim, sc);
    lemma_cong_sub(claim as int, sc as int, p0 + p0 + p1 + ri, p0 + ri);
    let l1 = fsub(claim, sc);
    lemma_field_ops_cong(l1, p[0]);
    lemma_cong_sub(l1 as int, p0, p0 + p1, p0);
    let lin = linear_coefficient(coefs, claim);
    assert(cong(lin as int, p1));
    lemma_small_mod(lin, P as nat);
    lemma_small_mod(p[1], P as nat);
    assert(complete_coefficients(coefs, claim) =~= p);
}

} // verus!
