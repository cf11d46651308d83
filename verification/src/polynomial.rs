//! Univariate polynomials over the field as coefficient sequences (lowest degree first), with
//! their sum, difference, scaling and product, each proved to evaluate as the field operation
//! on the values, and with bounds on their lengths (a polynomial of degree `d` has `d + 1`
//! coefficients).

use vstd::prelude::*;
use vstd::arithmetic::div_mod::*;
use crate::field::{fadd, fmul, fsub, poly_value, P};
use crate::interpolation::{cong, lemma_cong_add, lemma_cong_mul, lemma_cong_sub, lemma_field_ops_cong};
use crate::lagrange_ker::lemma_cong_canonical;

verus! {

// POLYNOMIAL ARITHMETIC
// ================================================================================================

/// Coefficient `i` of `p`, zero past its end.
pub open spec fn coef(p: Seq<nat>, i: int) -> nat {
    if 0 <= i < p.len() {
        p[i]
    } else {
        0
    }
}

/// The larger of two lengths.
pub open spec fn max_len(a: nat, b: nat) -> nat {
    if a < b {
        b
    } else {
        a
    }
}

/// `p` without its constant coefficient (the empty polynomial stays empty).
pub open spec fn ptail(p: Seq<nat>) -> Seq<nat> {
    if p.len() == 0 {
        p
    } else {
        p.drop_first()
    }
}

/// `p + q`.
pub open spec fn padd(p: Seq<nat>, q: Seq<nat>) -> Seq<nat> {
    Seq::new(max_len(p.len(), q.len()), |i: int| fadd(coef(p, i), coef(q, i)))
}

/// `p - q`.
pub open spec fn psub(p: Seq<nat>, q: Seq<nat>) -> Seq<nat> {
    Seq::new(max_len(p.len(), q.len()), |i: int| fsub(coef(p, i), coef(q, i)))
}

/// `c * p`.
pub open spec fn pscale(c: nat, p: Seq<nat>) -> Seq<nat> {
    Seq::new(p.len(), |i: int| fmul(c, p[i]))
}

/// `p * q`, by `p = p0 + x * p'`: `p * q = p0 * q + x * (p' * q)`.
pub open spec fn pmul(p: Seq<nat>, q: Seq<nat>) -> Seq<nat>
    decreases p.len(),
{
    if p.len() == 0 {
        seq![]
    } else {
        padd(pscale(p[0], q), seq![0nat] + pmul(p.drop_first(), q))
    }
}

// FIELD ALGEBRA
// ================================================================================================

proof fn lemma_c_add(x: nat, y: nat, a: int, b: int)
    requires
        cong(x as int, a),
        cong(y as int, b),
    ensures
        cong(fadd(x, y) as int, a + b),
{
    lemma_field_ops_cong(x, y);
    lemma_cong_add(x as int, y as int, a, b);
}

proof fn lemma_c_sub(x: nat, y: nat, a: int, b: int)
    requires
        cong(x as int, a),
        cong(y as int, b),
    ensures
        cong(fsub(x, y) as int, a - b),
{
    lemma_field_ops_cong(x, y);
    lemma_cong_sub(x as int, y as int, a, b);
}

proof fn lemma_c_mul(x: nat, y: nat, a: int, b: int)
    requires
        cong(x as int, a),
        cong(y as int, b),
    ensures
        cong(fmul(x, y) as int, a * b),
{
    lemma_field_ops_cong(x, y);
    lemma_cong_mul(x as int, y as int, a, b);
}

/// The value of `p` in terms of its tail: `p(x) = p_0 + x * p'(x)`.
proof fn lemma_pv_unfold(p: Seq<nat>, x: nat)
    ensures
        poly_value(p, x) == fadd(fmul(poly_value(ptail(p), x), x), coef(p, 0)),
{
    if p.len() == 0 {
        assert(0nat * x == 0) by (nonlinear_arith);
        lemma_small_mod(0, P as nat);
    }
}

/// `(A + B) x + (a + b) == (A x + a) + (B x + b)`.
proof fn lemma_alg_add(aa: nat, bb: nat, a: nat, b: nat, x: nat)
    ensures
        fadd(fmul(fadd(aa, bb), x), fadd(a, b)) == fadd(fadd(fmul(aa, x), a), fadd(fmul(bb, x), b)),
{
    let (ai, bi, a0, b0, xi) = (aa as int, bb as int, a as int, b as int, x as int);
    lemma_c_add(aa, bb, ai, bi);
    lemma_c_mul(fadd(aa, bb), x, ai + bi, xi);
    lemma_c_add(a, b, a0, b0);
    lemma_c_add(fmul(fadd(aa, bb), x), fadd(a, b), (ai + bi) * xi, a0 + b0);
    lemma_c_mul(aa, x, ai, xi);
    lemma_c_mul(bb, x, bi, xi);
    lemma_c_add(fmul(aa, x), a, ai * xi, a0);
    lemma_c_add(fmul(bb, x), b, bi * xi, b0);
    lemma_c_add(fadd(fmul(aa, x), a), fadd(fmul(bb, x), b), ai * xi + a0, bi * xi + b0);
    assert((ai + bi) * xi + (a0 + b0) == (ai * xi + a0) + (bi * xi + b0)) by (nonlinear_arith);
    lemma_cong_canonical(
        fadd(fmul(fadd(aa, bb), x), fadd(a, b)),
        fadd(fadd(fmul(aa, x), a), fadd(fmul(bb, x), b)),
    );
}

/// `(A - B) x + (a - b) == (A x + a) - (B x + b)`.
proof fn lemma_alg_sub(aa: nat, bb: nat, a: nat, b: nat, x: nat)
    ensures
        fadd(fmul(fsub(aa, bb), x), fsub(a, b)) == fsub(fadd(fmul(aa, x), a), fadd(fmul(bb, x), b)),
{
    let (ai, bi, a0, b0, xi) = (aa as int, bb as int, a as int, b as int, x as int);
    lemma_c_sub(aa, bb, ai, bi);
    lemma_c_mul(fsub(aa, bb), x, ai - bi, xi);
    lemma_c_sub(a, b, a0, b0);
    lemma_c_add(fmul(fsub(aa, bb), x), fsub(a, b), (ai - bi) * xi, a0 - b0);
    lemma_c_mul(aa, x, ai, xi);
    lemma_c_mul(bb, x, bi, xi);
    lemma_c_add(fmul(aa, x), a, ai * xi, a0);
    lemma_c_add(fmul(bb, x), b, bi * xi, b0);
    lemma_c_sub(fadd(fmul(aa, x), a), fadd(fmul(bb, x), b), ai * xi + a0, bi * xi + b0);
    assert((ai - bi) * xi + (a0 - b0) == (ai * xi + a0) - (bi * xi + b0)) by (nonlinear_arith);
    lemma_cong_canonical(
        fadd(fmul(fsub(aa, bb), x), fsub(a, b)),
        fsub(fadd(fmul(aa, x), a), fadd(fmul(bb, x), b)),
    );
}

/// `(c A) x + c a == c (A x + a)`.
proof fn lemma_alg_scale(c: nat, aa: nat, a: nat, x: nat)
    ensures
        fadd(fmul(fmul(c, aa), x), fmul(c, a)) == fmul(c, fadd(fmul(aa, x), a)),
{
    let (ci, ai, a0, xi) = (c as int, aa as int, a as int, x as int);
    lemma_c_mul(c, aa, ci, ai);
    lemma_c_mul(fmul(c, aa), x, ci * ai, xi);
    lemma_c_mul(c, a, ci, a0);
    lemma_c_add(fmul(fmul(c, aa), x), fmul(c, a), ci * ai * xi, ci * a0);
    lemma_c_mul(aa, x, ai, xi);
    lemma_c_add(fmul(aa, x), a, ai * xi, a0);
    lemma_c_mul(c, fadd(fmul(aa, x), a), ci, ai * xi + a0);
    assert(ci * ai * xi + ci * a0 == ci * (ai * xi + a0)) by (nonlinear_arith);
    lemma_cong_canonical(
        fadd(fmul(fmul(c, aa), x), fmul(c, a)),
        fmul(c, fadd(fmul(aa, x), a)),
    );
}

/// `a Q + (A Q) x == (A x + a) Q`.
proof fn lemma_alg_mul(a: nat, q: nat, aa: nat, x: nat)
    ensures
        fadd(fmul(a, q), fmul(fmul(aa, q), x)) == fmul(fadd(fmul(aa, x), a), q),
{
    let (a0, qi, ai, xi) = (a as int, q as int, aa as int, x as int);
    lemma_c_mul(a, q, a0, qi);
    lemma_c_mul(aa, q, ai, qi);
    lemma_c_mul(fmul(aa, q), x, ai * qi, xi);
    lemma_c_add(fmul(a, q), fmul(fmul(aa, q), x), a0 * qi, ai * qi * xi);
    lemma_c_mul(aa, x, ai, xi);
    lemma_c_add(fmul(aa, x), a, ai * xi, a0);
    lemma_c_mul(fadd(fmul(aa, x), a), q, ai * xi + a0, qi);
    assert(a0 * qi + ai * qi * xi == (ai * xi + a0) * qi) by (nonlinear_arith);
    lemma_cong_canonical(
        fadd(fmul(a, q), fmul(fmul(aa, q), x)),
        fmul(fadd(fmul(aa, x), a), q),
    );
}

// EVALUATION
// ================================================================================================

/// `(p + q)(x) == p(x) + q(x)`.
pub proof fn lemma_padd_value(p: Seq<nat>, q: Seq<nat>, x: nat)
    ensures
        poly_value(padd(p, q), x) == fadd(poly_value(p, x), poly_value(q, x)),
    decreases p.len() + q.len(),
{
    let s = padd(p, q);
    if s.len() == 0 {
        lemma_small_mod(0, P as nat);
    } else {
        assert(ptail(s) =~= padd(ptail(p), ptail(q)));
        lemma_padd_value(ptail(p), ptail(q), x);
        lemma_pv_unfold(s, x);
        lemma_pv_unfold(p, x);
        lemma_pv_unfold(q, x);
        lemma_alg_add(poly_value(ptail(p), x), poly_value(ptail(q), x), coef(p, 0), coef(q, 0), x);
    }
}

/// `(p - q)(x) == p(x) - q(x)`.
pub proof fn lemma_psub_value(p: Seq<nat>, q: Seq<nat>, x: nat)
    ensures
        poly_value(psub(p, q), x) == fsub(poly_value(p, x), poly_value(q, x)),
    decreases p.len() + q.len(),
{
    let s = psub(p, q);
    if s.len() == 0 {
        lemma_small_mod(0, P as nat);
    } else {
        assert(ptail(s) =~= psub(ptail(p), ptail(q)));
        lemma_psub_value(ptail(p), ptail(q), x);
        lemma_pv_unfold(s, x);
        lemma_pv_unfold(p, x);
        lemma_pv_unfold(q, x);
        lemma_alg_sub(poly_value(ptail(p), x), poly_value(ptail(q), x), coef(p, 0), coef(q, 0), x);
    }
}

/// `(c p)(x) == c * p(x)`.
pub proof fn lemma_pscale_value(c: nat, p: Seq<nat>, x: nat)
    ensures
        poly_value(pscale(c, p), x) == fmul(c, poly_value(p, x)),
    decreases p.len(),
{
    if p.len() == 0 {
        assert(c * 0 == 0) by (nonlinear_arith);
        lemma_small_mod(0, P as nat);
    } else {
        assert(pscale(c, p).drop_first() =~= pscale(c, p.drop_first()));
        lemma_pscale_value(c, p.drop_first(), x);
        lemma_alg_scale(c, poly_value(p.drop_first(), x), p[0], x);
    }
}

/// `(p q)(x) == p(x) * q(x)`.
pub proof fn lemma_pmul_value(p: Seq<nat>, q: Seq<nat>, x: nat)
    ensures
        poly_value(pmul(p, q), x) == fmul(poly_value(p, x), poly_value(q, x)),
    decreases p.len(),
{
    if p.len() == 0 {
        assert(0nat * poly_value(q, x) == 0) by (nonlinear_arith);
        lemma_small_mod(0, P as nat);
    } else {
        let r = pmul(p.drop_first(), q);
        let shifted = seq![0nat] + r;
        lemma_pmul_value(p.drop_first(), q, x);
        lemma_pscale_value(p[0], q, x);
        lemma_padd_value(pscale(p[0], q), shifted, x);
        assert(shifted.drop_first() =~= r);
        let rv = poly_value(r, x);
        assert(poly_value(shifted, x) == fmul(rv, x)) by {
            lemma_small_mod(fmul(rv, x), P as nat);
        }
        lemma_alg_mul(p[0], poly_value(q, x), poly_value(p.drop_first(), x), x);
    }
}

// LENGTHS
// ================================================================================================

/// The product of polynomials with `n >= 1` and `m >= 1` coefficients has at least one and at
/// most `n + m - 1` coefficients.
pub proof fn lemma_pmul_len(p: Seq<nat>, q: Seq<nat>)
    requires
        p.len() >= 1,
        q.len() >= 1,
    ensures
        1 <= pmul(p, q).len() <= p.len() + q.len() - 1,
    decreases p.len(),
{
    if p.len() > 1 {
        lemma_pmul_len(p.drop_first(), q);
    } else {
        assert(pmul(p.drop_first(), q).len() == 0);
    }
}

} // verus!
