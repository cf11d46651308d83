//! The EQ (equality) function and its Lagrange kernel.
//!
//! For `r = (r_0, ..., r_{ν-1})`, `EQ(r, t) = ∏_i (r_i * t_i + (1 - r_i) * (1 - t_i))`. On the
//! Boolean hypercube `{0, 1}^ν`, indexed little-endian by `y` (bit `i` of `y` is `y_i`), its
//! values `EQ(r, y) = ∏_i (y_i ? r_i : 1 - r_i)` form the Lagrange kernel at `r`: the basis in
//! which a multi-linear extension is the inner product with the evaluations of a function.

use vstd::prelude::*;
use vstd::arithmetic::div_mod::*;
use vstd::arithmetic::power2::*;
use vstd::bits::*;
use crate::field::{
    fadd, felts, fmul, fprod, fsub, fsum, lemma_fadd_zero, lemma_felt_lt_p, lemma_field_ops_lt_p,
    lemma_fmul_comm, lemma_fmul_one, lemma_fprod_first, lemma_fprod_prefix, lemma_fsub_fmul_one_minus,
    lemma_fsum_prefix, lemma_fadd_assoc, Felt, P,
};
use crate::multilinear::MultiLinearPoly;
use crate::interpolation::{cong, lemma_cong_add, lemma_cong_mul, lemma_field_ops_cong};

verus! {

broadcast use lemma_felt_lt_p, lemma_field_ops_lt_p;

// SPECIFICATION
// ================================================================================================

/// Bit `i` of `y`.
pub open spec fn bit_of(y: nat, i: nat) -> bool {
    (y / pow2(i)) % 2 == 1
}

/// The factor of `EQ(r, y)` for one coordinate: `r` where the bit is set, `1 - r` elsewhere.
pub open spec fn eq_factor(r: nat, bit: bool) -> nat {
    if bit {
        r % (P as nat)
    } else {
        fsub(1, r)
    }
}

/// `EQ(r, y)` for the point `y` of the Boolean hypercube whose coordinates are the bits of `y`.
pub open spec fn lagrange_kernel_at(r: Seq<nat>, y: nat) -> nat {
    fprod(Seq::new(r.len(), |i: int| eq_factor(r[i], bit_of(y, i as nat))))
}

/// The factor of `EQ(r, t)` for one coordinate: `r * t + (1 - r) * (1 - t)`.
pub open spec fn eq_term(r: nat, t: nat) -> nat {
    fadd(fmul(r, t), fmul(fsub(1, r), fsub(1, t)))
}

/// The factors of `EQ(r, t)`.
pub open spec fn eq_terms(r: Seq<nat>, t: Seq<nat>) -> Seq<nat> {
    Seq::new(r.len(), |i: int| eq_term(r[i], t[i]))
}

/// `EQ(r, t)` for any point `t` of the field.
pub open spec fn eq_eval(r: Seq<nat>, t: Seq<nat>) -> nat {
    fprod(eq_terms(r, t))
}

/// The coordinates of the point of the Boolean hypercube of dimension `n` indexed by `y`.
pub open spec fn hypercube_point(y: nat, n: nat) -> Seq<nat> {
    Seq::new(n, |i: int| if bit_of(y, i as nat) { 1nat } else { 0nat })
}

/// The products `x_i * y_i`.
pub open spec fn pointwise_products(x: Seq<nat>, y: Seq<nat>) -> Seq<nat> {
    Seq::new(x.len(), |i: int| fmul(x[i], y[i]))
}

/// `Σ_i x_i * y_i`.
pub open spec fn inner_product_spec(x: Seq<nat>, y: Seq<nat>) -> nat {
    fsum(pointwise_products(x, y))
}

/// The Lagrange kernel at `r`: `EQ(r, y)` for `y` in `0 .. 2^ν`.
pub open spec fn lagrange_kernel(r: Seq<nat>) -> Seq<nat> {
    Seq::new(pow2(r.len()), |y: int| lagrange_kernel_at(r, y as nat))
}

// THE EQ FUNCTION
// ================================================================================================

/// The EQ function `t ↦ EQ(r, t)` for a fixed point `r`.
pub struct EqFunction {
    r: Vec<Felt>,
}

impl View for EqFunction {
    type V = Seq<nat>;

    /// The fixed point `r`.
    closed spec fn view(&self) -> Seq<nat> {
        felts(self.r@)
    }
}

impl EqFunction {
    /// Creates the EQ function at the point `r`.
    pub fn new(r: Vec<Felt>) -> (res: Self)
        ensures
            res@ == felts(r@),
    {
        EqFunction { r }
    }

    /// Computes `EQ(r, t)`.
    pub fn evaluate(&self, t: &[Felt]) -> (res: Felt)
        requires
            self@.len() == t@.len(),
        ensures
            res@ == eq_eval(self@, felts(t@)),
    {
        let ghost terms = eq_terms(self@, felts(t@));
        let mut acc = Felt::one();
        let mut i: usize = 0;
        proof {
            assert(terms.take(0).len() == 0);
        }
        while i < self.r.len()
            invariant
                i <= self.r@.len(),
                self.r@.len() == t@.len(),
                terms == eq_terms(self@, felts(t@)),
                acc@ == fprod(terms.take(i as int)),
            decreases self.r@.len() - i,
        {
            let ri = self.r[i];
            let ti = t[i];
            let one = Felt::one();
            let term = ri.mul(ti).add(one.sub(ri).mul(one.sub(ti)));
            proof {
                lemma_fprod_prefix(terms, i as int);
            }
            acc = acc.mul(term);
            i = i + 1;
        }
        proof {
            assert(terms.take(i as int) =~= terms);
        }
        acc
    }

    /// Computes `EQ(r, y)` for every `y` of the Boolean hypercube, i.e. the Lagrange kernel
    /// at `r`.
    pub fn evaluations(&self) -> (res: Vec<Felt>)
        requires
            self@.len() < usize::BITS,
        ensures
            felts(res@) == lagrange_kernel(self@),
    {
        compute_lagrange_basis_evals_at(self.r.as_slice())
    }

    /// The multi-linear polynomial whose evaluations over the Boolean hypercube are the
    /// Lagrange kernel at `evaluation_point`.
    pub fn ml_at(evaluation_point: Vec<Felt>) -> (res: MultiLinearPoly)
        requires
            evaluation_point@.len() < usize::BITS,
        ensures
            res.num_variables() == evaluation_point@.len(),
            res@ == lagrange_kernel(felts(evaluation_point@)),
    {
        let eq = EqFunction::new(evaluation_point);
        let eq_evals = eq.evaluations();
        proof {
            assert(eq_evals@.len() == felts(eq_evals@).len());
        }
        match MultiLinearPoly::from_evaluations(eq_evals) {
            Ok(poly) => {
                proof {
                    let nv = poly.num_variables() as nat;
                    let nu = felts(eq.r@).len();
                    if nv < nu {
                        lemma_pow2_strictly_increases(nv, nu);
                    } else if nv > nu {
                        lemma_pow2_strictly_increases(nu, nv);
                    }
                }
                poly
            },
            Err(_) => vstd::pervasive::unreached(),
        }
    }
}

// HELPERS
// ================================================================================================

/// Computes the inner product `Σ_i x_i * y_i` of two vectors of the same length.
pub fn inner_product(evaluations: &[Felt], tensored_query: &[Felt]) -> (res: Felt)
    requires
        evaluations@.len() == tensored_query@.len(),
    ensures
        res@ == inner_product_spec(felts(evaluations@), felts(tensored_query@)),
{
    let ghost terms = pointwise_products(felts(evaluations@), felts(tensored_query@));
    let mut acc = Felt::zero();
    let mut i: usize = 0;
    proof {
        assert(terms.take(0).len() == 0);
    }
    while i < evaluations.len()
        invariant
            i <= evaluations@.len(),
            evaluations@.len() == tensored_query@.len(),
            terms == pointwise_products(felts(evaluations@), felts(tensored_query@)),
            acc@ == fsum(terms.take(i as int)),
        decreases evaluations@.len() - i,
    {
        let product = evaluations[i].mul(tensored_query[i]);
        proof {
            lemma_fsum_prefix(terms, i as int);
        }
        acc = acc.add(product);
        i = i + 1;
    }
    proof {
        assert(terms.take(i as int) =~= terms);
    }
    acc
}

/// `EQ(r, 2m + b)` splits into the factor of the first coordinate and `EQ` of the remaining
/// coordinates at `m`.
proof fn lemma_kernel_step(r: Seq<nat>, m: nat, b: nat)
    requires
        r.len() > 0,
        b < 2,
    ensures
        lagrange_kernel_at(r, 2 * m + b) == fmul(
            eq_factor(r[0], b == 1),
            lagrange_kernel_at(r.drop_first(), m),
        ),
{
    let y = 2 * m + b;
    let s = Seq::new(r.len(), |i: int| eq_factor(r[i], bit_of(y, i as nat)));
    let t = Seq::new(r.drop_first().len(), |i: int| eq_factor(r.drop_first()[i], bit_of(m, i as nat)));
    lemma_fprod_first(s);
    lemma2_to64();
    assert(bit_of(y, 0) == (b == 1));
    assert forall|i: int| 0 <= i < t.len() implies s.drop_first()[i] == t[i] by {
        lemma_pow2_unfold((i + 1) as nat);
        lemma_pow2_pos(i as nat);
        lemma_div_denominator(y as int, 2, pow2(i as nat) as int);
        assert(y / 2 == m);
        assert(bit_of(y, (i + 1) as nat) == bit_of(m, i as nat));
    }
    assert(s.drop_first() =~= t);
}

/// Computes `EQ(r, y)` for every `y` of the Boolean hypercube `{0, 1}^ν`, where `r` is
/// `query`, i.e. the Lagrange kernel at `query`.
pub fn compute_lagrange_basis_evals_at(query: &[Felt]) -> (res: Vec<Felt>)
    requires
        query@.len() < usize::BITS,
    ensures
        felts(res@) == lagrange_kernel(felts(query@)),
{
    let ghost q = felts(query@);
    let nu = query.len();
    proof {
        lemma_usize_pow2_no_overflow(nu as nat);
        lemma_usize_shl_is_mul(1, nu);
    }
    let n: usize = 1usize << nu;
    let mut evals: Vec<Felt> = Vec::new();
    let one = Felt::one();
    while evals.len() < n
        invariant
            evals@.len() <= n,
            one@ == 1,
            forall|j: int| 0 <= j < evals@.len() ==> (#[trigger] evals@[j])@ == 1,
        decreases n - evals@.len(),
    {
        evals.push(one);
    }
    let mut size: usize = 1;
    let mut k: usize = nu;
    proof {
        assert(q.subrange(nu as int, nu as int).len() == 0);
        assert(lagrange_kernel_at(q.subrange(nu as int, nu as int), 0) == 1) by {
            assert(Seq::new(0, |i: int| eq_factor(q.subrange(nu as int, nu as int)[i], bit_of(0, i as nat))).len() == 0);
        }
        lemma2_to64();
    }
    while k > 0
        invariant
            k <= nu,
            nu == query@.len(),
            q == felts(query@),
            n == pow2(nu as nat),
            n <= usize::MAX,
            evals@.len() == n,
            size == pow2((nu - k) as nat),
            forall|j: int| 0 <= j < size ==> (#[trigger] evals@[j])@ == lagrange_kernel_at(q.subrange(k as int, nu as int), j as nat),
        decreases k,
    {
        k = k - 1;
        let r_i = query[k];
        let ghost prev = q.subrange(k + 1, nu as int);
        let ghost cur = q.subrange(k as int, nu as int);
        proof {
            assert(cur.drop_first() =~= prev);
            assert(cur[0] == r_i@);
            lemma_pow2_unfold((nu - k) as nat);
            if k > 0 {
                lemma_pow2_strictly_increases((nu - k) as nat, nu as nat);
            }
        }
        let half = size;
        size = size * 2;
        let ghost old_evals = evals@;
        let mut pairs: usize = half;
        while pairs > 0
            invariant
                pairs <= half,
                size == 2 * half,
                size <= n,
                evals@.len() == n,
                cur.len() > 0,
                cur[0] == r_i@,
                cur.drop_first() == prev,
                forall|j: int| 0 <= j < half ==> (#[trigger] old_evals[j])@ == lagrange_kernel_at(prev, j as nat),
                forall|j: int| 0 <= j < 2 * pairs ==> #[trigger] evals@[j] == old_evals[j],
                forall|j: int| 2 * pairs <= j < size ==> (#[trigger] evals@[j])@ == lagrange_kernel_at(cur, j as nat),
            decreases pairs,
        {
            pairs = pairs - 1;
            let i = 2 * pairs + 1;
            let scalar = evals[i / 2];
            let hi = scalar.mul(r_i);
            evals.set(i, hi);
            let lo = scalar.sub(hi);
            evals.set(i - 1, lo);
            proof {
                let m = pairs as nat;
                assert(scalar@ == lagrange_kernel_at(prev, m));
                lemma_kernel_step(cur, m, 1);
                lemma_kernel_step(cur, m, 0);
                lemma_small_mod(r_i@, P as nat);
                lemma_fmul_comm(scalar@, r_i@);
                lemma_fsub_fmul_one_minus(scalar@, r_i@);
                lemma_fmul_comm(scalar@, fsub(1, r_i@));
                assert(evals@[i as int]@ == lagrange_kernel_at(cur, (2 * m + 1) as nat));
                assert(evals@[(i - 1) as int]@ == lagrange_kernel_at(cur, (2 * m) as nat));
            }
        }
    }
    proof {
        assert(q.subrange(0, nu as int) =~= q);
        assert(felts(evals@) =~= lagrange_kernel(q));
    }
    evals
}

// LAWS
// ================================================================================================

/// At a point of the Boolean hypercube, `EQ(r, ·)` (what `EqFunction::evaluate` computes)
/// equals the entry of the Lagrange kernel at `r` (what `EqFunction::evaluations` computes)
/// that this point indexes.
pub proof fn lemma_evaluate_on_hypercube_is_kernel(r: Seq<nat>, y: nat)
    ensures
        eq_eval(r, hypercube_point(y, r.len())) == lagrange_kernel_at(r, y),
{
    let t = hypercube_point(y, r.len());
    let a = eq_terms(r, t);
    let b = Seq::new(r.len(), |i: int| eq_factor(r[i], bit_of(y, i as nat)));
    assert forall|i: int| 0 <= i < r.len() implies a[i] == b[i] by {
        lemma_small_mod(1, P as nat);
        lemma_small_mod(0, P as nat);
        if bit_of(y, i as nat) {
            // r * 1 + (1 - r) * 0
            assert(fsub(1, 1) == 0);
            assert(fmul(r[i], 1) == r[i] % (P as nat));
            assert(fmul(fsub(1, r[i]), 0) == 0);
            lemma_small_mod(r[i] % (P as nat), P as nat);
        } else {
            // r * 0 + (1 - r) * 1
            assert(fsub(1, 0) == 1);
            assert(fmul(r[i], 0) == 0);
            lemma_fmul_one(fsub(1, r[i]));
            lemma_fadd_zero(fsub(1, r[i]));
        }
    }
    assert(a =~= b);
}

/// A product of ones is one.
proof fn lemma_fprod_ones(s: Seq<nat>)
    requires
        forall|i: int| 0 <= i < s.len() ==> s[i] == 1,
    ensures
        fprod(s) == 1,
    decreases s.len(),
{
    if s.len() > 0 {
        lemma_fprod_ones(s.drop_last());
        lemma_small_mod(1, P as nat);
    }
}

/// A product with a zero factor is zero.
proof fn lemma_fprod_zero(s: Seq<nat>, k: int)
    requires
        0 <= k < s.len(),
        s[k] == 0,
    ensures
        fprod(s) == 0,
    decreases s.len(),
{
    if k < s.len() - 1 {
        assert(s.drop_last()[k] == s[k]);
        lemma_fprod_zero(s.drop_last(), k);
        assert(fmul(0, s.last()) == 0);
    } else {
        assert(s.last() == 0);
        assert(fmul(fprod(s.drop_last()), 0) == 0);
    }
}

/// A sum whose terms all vanish but the one at `k` is that term.
proof fn lemma_fsum_single(s: Seq<nat>, k: int)
    requires
        0 <= k < s.len(),
        s[k] < P,
        forall|i: int| 0 <= i < s.len() && i != k ==> s[i] == 0,
    ensures
        fsum(s) == s[k],
    decreases s.len(),
{
    if k < s.len() - 1 {
        lemma_fsum_single(s.drop_last(), k);
        lemma_fadd_zero(fsum(s.drop_last()));
    } else {
        lemma_fsum_zeros(s.drop_last());
        lemma_fadd_zero(s[k]);
    }
}

/// A sum of zeros is zero.
proof fn lemma_fsum_zeros(s: Seq<nat>)
    requires
        forall|i: int| 0 <= i < s.len() ==> s[i] == 0,
    ensures
        fsum(s) == 0,
    decreases s.len(),
{
    if s.len() > 0 {
        lemma_fsum_zeros(s.drop_last());
    }
}

/// Two indices below `2^n` whose first `n` bits agree are equal.
proof fn lemma_bits_determine_index(y: nat, z: nat, n: nat)
    requires
        y < pow2(n),
        z < pow2(n),
        forall|i: nat| i < n ==> #[trigger] bit_of(y, i) == bit_of(z, i),
    ensures
        y == z,
    decreases n,
{
    lemma2_to64();
    if n > 0 {
        lemma_pow2_unfold(n);
        assert forall|i: nat| i < (n - 1) as nat implies #[trigger] bit_of(y / 2, i) == bit_of(z / 2, i) by {
            lemma_pow2_unfold(i + 1);
            lemma_pow2_pos(i);
            lemma_div_denominator(y as int, 2, pow2(i) as int);
            lemma_div_denominator(z as int, 2, pow2(i) as int);
            assert(bit_of(y, i + 1) == bit_of(z, i + 1));
        }
        lemma_bits_determine_index(y / 2, z / 2, (n - 1) as nat);
        assert(bit_of(y, 0) == bit_of(z, 0));
    }
}

/// At a point of the Boolean hypercube, the Lagrange kernel is the indicator of that point.
pub proof fn lemma_kernel_at_hypercube_point(z: nat, y: nat, n: nat)
    requires
        y < pow2(n),
        z < pow2(n),
    ensures
        lagrange_kernel_at(hypercube_point(z, n), y) == (if y == z { 1nat } else { 0nat }),
{
    let r = hypercube_point(z, n);
    let s = Seq::new(r.len(), |i: int| eq_factor(r[i], bit_of(y, i as nat)));
    lemma_small_mod(1, P as nat);
    lemma_small_mod(0, P as nat);
    assert(fsub(1, 1) == 0);
    assert(fsub(1, 0) == 1);
    assert forall|i: int| 0 <= i < n implies s[i] == (if bit_of(y, i as nat) == bit_of(z, i as nat) {
        1nat
    } else {
        0nat
    }) by {}
    if y == z {
        lemma_fprod_ones(s);
    } else {
        if forall|i: nat| i < n ==> #[trigger] bit_of(y, i) == bit_of(z, i) {
            lemma_bits_determine_index(y, z, n);
        }
        let k = choose|i: nat| i < n && #[trigger] bit_of(y, i) != bit_of(z, i);
        lemma_fprod_zero(s, k as int);
    }
}

/// The multi-linear extension of `f` (the inner product of its evaluations with the Lagrange
/// kernel, as `MultiLinearPoly::evaluate_with_lagrange_kernel` computes it) agrees with `f` on
/// the Boolean hypercube.
pub proof fn lemma_multilinear_extension_agrees_on_hypercube(f: Seq<nat>, n: nat, z: nat)
    requires
        f.len() == pow2(n),
        z < pow2(n),
        forall|i: int| 0 <= i < f.len() ==> f[i] < P,
    ensures
        inner_product_spec(f, lagrange_kernel(hypercube_point(z, n))) == f[z as int],
{
    let k = lagrange_kernel(hypercube_point(z, n));
    let terms = pointwise_products(f, k);
    assert forall|y: int| 0 <= y < terms.len() implies terms[y] == (if y == z {
        f[y] % (P as nat)
    } else {
        0nat
    }) by {
        assert(hypercube_point(z, n).len() == n);
        assert(k[y] == lagrange_kernel_at(hypercube_point(z, n), y as nat));
        lemma_kernel_at_hypercube_point(z, y as nat, n);
        assert(fmul(f[y], 1) == f[y] % (P as nat));
        assert(fmul(f[y], 0) == 0);
    }
    lemma_small_mod(f[z as int], P as nat);
    lemma_fsum_single(terms, z as int);
}

/// A sum of an even number of terms is the sum of the sums of consecutive pairs.
proof fn lemma_fsum_pairs(s: Seq<nat>, m: nat)
    requires
        s.len() == 2 * m,
    ensures
        fsum(s) == fsum(Seq::new(m, |k: int| fadd(s[2 * k], s[2 * k + 1]))),
    decreases m,
{
    let pairs = Seq::new(m, |k: int| fadd(s[2 * k], s[2 * k + 1]));
    if m == 0 {
        assert(pairs.len() == 0);
    } else {
        let front = s.subrange(0, 2 * m - 2);
        lemma_fsum_pairs(front, (m - 1) as nat);
        assert(s.drop_last().drop_last() =~= front);
        assert(pairs.drop_last() =~= Seq::new((m - 1) as nat, |k: int| fadd(front[2 * k], front[2 * k + 1])));
        assert(s.drop_last().last() == s[2 * m - 2]);
        lemma_fadd_assoc(fsum(front), s[2 * m - 2], s[2 * m - 1]);
        assert(fsum(s) == fadd(fsum(s.drop_last()), s[2 * m - 1]));
        assert(fsum(s.drop_last()) == fadd(fsum(front), s[2 * m - 2]));
        assert(fsum(pairs) == fadd(fsum(pairs.drop_last()), pairs[m - 1]));
    }
}

/// `(1 - r) * k + r * k == k`.
proof fn lemma_factors_sum_to_one(r: nat, k: nat)
    requires
        k < P,
    ensures
        fadd(fmul(eq_factor(r, false), k), fmul(eq_factor(r, true), k)) == k,
{
    let p = P as int;
    let a = eq_factor(r, false) as int;
    let b = eq_factor(r, true) as int;
    let ki = k as int;
    assert((a + b) % p == 1) by {
        lemma_add_mod_noop(1 - r, r as int, p);
        lemma_mod_twice(1 - r, p);
        lemma_small_mod(1, P as nat);
    }
    assert(fadd(fmul(a as nat, k), fmul(b as nat, k)) as int == ((a + b) * ki) % p) by {
        lemma_add_mod_noop(a * ki, b * ki, p);
        vstd::arithmetic::mul::lemma_mul_is_distributive_add_other_way(ki, a, b);
    }
    assert(((a + b) * ki) % p == ki) by {
        lemma_mul_mod_noop_left(a + b, ki, p);
        lemma_small_mod(k, P as nat);
    }
}

/// The Lagrange kernel is a partition of unity: its entries sum to one.
pub proof fn lemma_lagrange_kernel_sums_to_one(r: Seq<nat>)
    ensures
        fsum(lagrange_kernel(r)) == 1,
    decreases r.len(),
{
    let kernel = lagrange_kernel(r);
    if r.len() == 0 {
        lemma2_to64();
        assert(kernel.len() == 1);
        assert(kernel.drop_last().len() == 0);
        assert(fsum(kernel) == fadd(fsum(kernel.drop_last()), kernel[0]));
        assert(lagrange_kernel_at(r, 0) == 1) by {
            assert(Seq::new(0, |i: int| eq_factor(r[i], bit_of(0, i as nat))).len() == 0);
        }
        lemma_small_mod(1, P as nat);
    } else {
        let rest = r.drop_first();
        let m = pow2(rest.len());
        lemma_pow2_unfold(r.len());
        lemma_fsum_pairs(kernel, m);
        let pairs = Seq::new(m, |k: int| fadd(kernel[2 * k], kernel[2 * k + 1]));
        assert forall|k: int| 0 <= k < m implies #[trigger] pairs[k] == lagrange_kernel(rest)[k] by {
            lemma_kernel_step(r, k as nat, 0);
            lemma_kernel_step(r, k as nat, 1);
            let kk = lagrange_kernel_at(rest, k as nat);
            lemma_fmul_comm(eq_factor(r[0], false), kk);
            lemma_fmul_comm(eq_factor(r[0], true), kk);
            lemma_factors_sum_to_one(r[0], kk);
        }
        assert(pairs =~= lagrange_kernel(rest));
        lemma_lagrange_kernel_sums_to_one(rest);
        assert(kernel.len() == 2 * m);
        assert(fsum(kernel) == fsum(pairs));
    }
}

// LAWS ON EQ AND INNER PRODUCTS
// ================================================================================================

/// Two canonical values that are congruent modulo `P` are equal.
pub proof fn lemma_cong_canonical(a: nat, b: nat)
    requires
        a < P,
        b < P,
        cong(a as int, b as int),
    ensures
        a == b,
{
    lemma_small_mod(a, P as nat);
    lemma_small_mod(b, P as nat);
}

/// `EQ` is symmetric in its two arguments: `EQ(a, b) == EQ(b, a)`.
pub proof fn lemma_eq_eval_symmetric(a: Seq<nat>, b: Seq<nat>)
    requires
        a.len() == b.len(),
    ensures
        eq_eval(a, b) == eq_eval(b, a),
{
    assert forall|i: int| 0 <= i < a.len() implies #[trigger] eq_terms(a, b)[i] == eq_terms(b, a)[i] by {
        lemma_fmul_comm(a[i], b[i]);
        lemma_fmul_comm(fsub(1, a[i]), fsub(1, b[i]));
    }
    assert(eq_terms(a, b) =~= eq_terms(b, a));
}

/// The inner product is symmetric.
pub proof fn lemma_inner_product_symmetric(a: Seq<nat>, b: Seq<nat>)
    requires
        a.len() == b.len(),
    ensures
        inner_product_spec(a, b) == inner_product_spec(b, a),
{
    assert forall|i: int| 0 <= i < a.len() implies #[trigger] pointwise_products(a, b)[i]
        == pointwise_products(b, a)[i] by {
        lemma_fmul_comm(a[i], b[i]);
    }
    assert(pointwise_products(a, b) =~= pointwise_products(b, a));
}

/// The element-wise combination `u * x_i + w * y_i`.
pub open spec fn pointwise_combination(u: nat, x: Seq<nat>, w: nat, y: Seq<nat>) -> Seq<nat> {
    Seq::new(x.len(), |i: int| fadd(fmul(u, x[i]), fmul(w, y[i])))
}

/// The element-wise sum `x_i + y_i`.
pub open spec fn pointwise_sums(x: Seq<nat>, y: Seq<nat>) -> Seq<nat> {
    Seq::new(x.len(), |i: int| fadd(x[i], y[i]))
}

/// `u * (a + b) + w * (c + d)` and `(u * a + w * c) + (u * b + w * d)` agree.
proof fn lemma_combination_of_sums(u: nat, a: nat, b: nat, w: nat, c: nat, d: nat)
    ensures
        fadd(fadd(fmul(u, a), fmul(w, c)), fadd(fmul(u, b), fmul(w, d))) == fadd(
            fmul(u, fadd(a, b)),
            fmul(w, fadd(c, d)),
        ),
{
    let (ui, ai, bi, wi, ci, di) = (u as int, a as int, b as int, w as int, c as int, d as int);
    // left side
    lemma_field_ops_cong(u, a);
    lemma_field_ops_cong(w, c);
    lemma_field_ops_cong(u, b);
    lemma_field_ops_cong(w, d);
    lemma_field_ops_cong(fmul(u, a), fmul(w, c));
    lemma_field_ops_cong(fmul(u, b), fmul(w, d));
    lemma_cong_add(fmul(u, a) as int, fmul(w, c) as int, ui * ai, wi * ci);
    lemma_cong_add(fmul(u, b) as int, fmul(w, d) as int, ui * bi, wi * di);
    let l1 = fadd(fmul(u, a), fmul(w, c));
    let l2 = fadd(fmul(u, b), fmul(w, d));
    lemma_field_ops_cong(l1, l2);
    lemma_cong_add(l1 as int, l2 as int, ui * ai + wi * ci, ui * bi + wi * di);
    // right side
    lemma_field_ops_cong(a, b);
    lemma_field_ops_cong(c, d);
    lemma_field_ops_cong(u, fadd(a, b));
    lemma_field_ops_cong(w, fadd(c, d));
    lemma_cong_mul(ui, fadd(a, b) as int, ui, ai + bi);
    lemma_cong_mul(wi, fadd(c, d) as int, wi, ci + di);
    let r1 = fmul(u, fadd(a, b));
    let r2 = fmul(w, fadd(c, d));
    lemma_field_ops_cong(r1, r2);
    lemma_cong_add(r1 as int, r2 as int, ui * (ai + bi), wi * (ci + di));
    assert(ui * (ai + bi) + wi * (ci + di) == ui * ai + wi * ci + (ui * bi + wi * di))
        by (nonlinear_arith);
    lemma_cong_canonical(fadd(l1, l2), fadd(r1, r2));
}

/// A sum of combinations is the combination of the sums:
/// `Σ (u * s_i + w * t_i) == u * Σ s_i + w * Σ t_i`.
pub proof fn lemma_fsum_combination(u: nat, s: Seq<nat>, w: nat, t: Seq<nat>)
    requires
        s.len() == t.len(),
    ensures
        fsum(pointwise_combination(u, s, w, t)) == fadd(fmul(u, fsum(s)), fmul(w, fsum(t))),
    decreases s.len(),
{
    let c = pointwise_combination(u, s, w, t);
    if s.len() == 0 {
        assert(fmul(u, 0) == 0 && fmul(w, 0) == 0) by {
            lemma_small_mod(0, P as nat);
            assert(u * 0 == 0 && w * 0 == 0) by (nonlinear_arith);
        }
        lemma_small_mod(0, P as nat);
    } else {
        let (s0, t0) = (s.drop_last(), t.drop_last());
        assert(c.drop_last() =~= pointwise_combination(u, s0, w, t0));
        lemma_fsum_combination(u, s0, w, t0);
        lemma_combination_of_sums(u, fsum(s0), s.last(), w, fsum(t0), t.last());
    }
}

/// The inner product is linear in its second argument:
/// `<a, u * b + w * c> == u * <a, b> + w * <a, c>`.
pub proof fn lemma_inner_product_linear(a: Seq<nat>, u: nat, b: Seq<nat>, w: nat, c: Seq<nat>)
    requires
        a.len() == b.len(),
        b.len() == c.len(),
    ensures
        inner_product_spec(a, pointwise_combination(u, b, w, c)) == fadd(
            fmul(u, inner_product_spec(a, b)),
            fmul(w, inner_product_spec(a, c)),
        ),
{
    let ab = pointwise_products(a, b);
    let ac = pointwise_products(a, c);
    assert forall|i: int| 0 <= i < a.len() implies #[trigger] pointwise_products(
        a,
        pointwise_combination(u, b, w, c),
    )[i] == pointwise_combination(u, ab, w, ac)[i] by {
        lemma_scaled_product(a[i], u, b[i], w, c[i]);
    }
    assert(pointwise_products(a, pointwise_combination(u, b, w, c)) =~= pointwise_combination(
        u,
        ab,
        w,
        ac,
    ));
    lemma_fsum_combination(u, ab, w, ac);
}

/// The inner product is additive in its second argument: `<a, b + c> == <a, b> + <a, c>`.
pub proof fn lemma_inner_product_additive(a: Seq<nat>, b: Seq<nat>, c: Seq<nat>)
    requires
        a.len() == b.len(),
        b.len() == c.len(),
    ensures
        inner_product_spec(a, pointwise_sums(b, c)) == fadd(
            inner_product_spec(a, b),
            inner_product_spec(a, c),
        ),
{
    assert forall|i: int| 0 <= i < b.len() implies #[trigger] pointwise_sums(b, c)[i]
        == pointwise_combination(1, b, 1, c)[i] by {
        lemma_fmul_one(b[i] % (P as nat));
        lemma_fmul_one(c[i] % (P as nat));
        lemma_fadd_canonical_mul_one(b[i], c[i]);
    }
    assert(pointwise_sums(b, c) =~= pointwise_combination(1, b, 1, c));
    lemma_inner_product_linear(a, 1, b, 1, c);
    lemma_fmul_one(inner_product_spec(a, b));
    lemma_fmul_one(inner_product_spec(a, c));
}

/// `x + y == 1 * x + 1 * y` in the field.
proof fn lemma_fadd_canonical_mul_one(x: nat, y: nat)
    ensures
        fadd(x, y) == fadd(fmul(1, x), fmul(1, y)),
{
    lemma_field_ops_cong(1, x);
    lemma_field_ops_cong(1, y);
    lemma_cong_add(fmul(1, x) as int, fmul(1, y) as int, x as int, y as int);
    lemma_field_ops_cong(fmul(1, x), fmul(1, y));
    lemma_field_ops_cong(x, y);
    lemma_cong_canonical(fadd(x, y), fadd(fmul(1, x), fmul(1, y)));
}

/// `f * (u * a + w * b) == u * (f * a) + w * (f * b)` in the field.
proof fn lemma_scaled_product(f: nat, u: nat, a: nat, w: nat, b: nat)
    ensures
        fmul(f, fadd(fmul(u, a), fmul(w, b))) == fadd(fmul(u, fmul(f, a)), fmul(w, fmul(f, b))),
{
    let (fi, ui, ai, wi, bi) = (f as int, u as int, a as int, w as int, b as int);
    let ua = fmul(u, a);
    let wb = fmul(w, b);
    let s = fadd(ua, wb);
    lemma_field_ops_cong(u, a);
    lemma_field_ops_cong(w, b);
    lemma_field_ops_cong(ua, wb);
    lemma_cong_add(ua as int, wb as int, ui * ai, wi * bi);
    lemma_field_ops_cong(f, s);
    lemma_cong_mul(fi, s as int, fi, ui * ai + wi * bi);
    let fa = fmul(f, a);
    let fb = fmul(f, b);
    lemma_field_ops_cong(f, a);
    lemma_field_ops_cong(f, b);
    lemma_field_ops_cong(u, fa);
    lemma_field_ops_cong(w, fb);
    lemma_cong_mul(ui, fa as int, ui, fi * ai);
    lemma_cong_mul(wi, fb as int, wi, fi * bi);
    let x = fmul(u, fa);
    let y = fmul(w, fb);
    lemma_field_ops_cong(x, y);
    lemma_cong_add(x as int, y as int, ui * (fi * ai), wi * (fi * bi));
    assert(fi * (ui * ai + wi * bi) == ui * (fi * ai) + wi * (fi * bi)) by (nonlinear_arith);
    lemma_cong_canonical(fmul(f, s), fadd(x, y));
}

/// Bits of `y < 2^n` and of `y + 2^n`: they agree below `n`, and bit `n` is clear in the
/// first and set in the second.
proof fn lemma_bits_of_high_half(y: nat, n: nat, i: nat)
    requires
        y < pow2(n),
        i <= n,
    ensures
        i < n ==> bit_of(y + pow2(n), i) == bit_of(y, i),
        i == n ==> !bit_of(y, i) && bit_of(y + pow2(n), i),
{
    lemma_pow2_pos(i);
    lemma_pow2_pos(n);
    if i == n {
        lemma_basic_div(y as int, pow2(n) as int);
        lemma_hoist_over_denominator(y as int, 1, pow2(n));
    } else {
        let k = (n - i) as nat;
        lemma_pow2_adds(i, k);
        lemma_pow2_unfold(k);
        assert(pow2(n) == pow2(k) * pow2(i));
        lemma_hoist_over_denominator(y as int, pow2(k) as int, pow2(i));
        let q = y / pow2(i);
        assert((y + pow2(n)) / pow2(i) == q + pow2(k));
        let h = pow2((k - 1) as nat);
        assert(pow2(k) == 2 * h);
        assert((q + 2 * h) % 2 == q % 2) by {
            lemma_mod_multiples_vanish(h as int, q as int, 2);
        }
    }
}

/// Appending a coordinate `x` to the point tensors the kernel with `[1 - x, x]` on the new
/// high bit: the first half of the new kernel is the old one times `1 - x`, the second half
/// the old one times `x`.
pub proof fn lemma_kernel_appended_coordinate(r: Seq<nat>, x: nat)
    ensures
        lagrange_kernel(r.push(x)).len() == 2 * lagrange_kernel(r).len(),
        forall|y: int|
            0 <= y < pow2(r.len()) ==> #[trigger] lagrange_kernel(r.push(x))[y] == fmul(
                lagrange_kernel(r)[y],
                fsub(1, x),
            ),
        forall|y: int|
            0 <= y < pow2(r.len()) ==> #[trigger] lagrange_kernel(r.push(x))[y + pow2(r.len())]
                == fmul(lagrange_kernel(r)[y], x % (P as nat)),
{
    let n = r.len();
    lemma_pow2_unfold(n + 1);
    assert forall|y: int| 0 <= y < pow2(n) implies #[trigger] lagrange_kernel(r.push(x))[y] == fmul(
        lagrange_kernel(r)[y],
        fsub(1, x),
    ) by {
        lemma_kernel_appended_coordinate_at(r, x, y as nat);
    }
    assert forall|y: int| 0 <= y < pow2(n) implies #[trigger] lagrange_kernel(r.push(x))[y + pow2(
        n,
    )] == fmul(lagrange_kernel(r)[y], x % (P as nat)) by {
        lemma_kernel_appended_coordinate_at(r, x, y as nat);
    }
}

/// One entry of each half of the kernel with an appended coordinate.
proof fn lemma_kernel_appended_coordinate_at(r: Seq<nat>, x: nat, y: nat)
    requires
        y < pow2(r.len()),
    ensures
        lagrange_kernel_at(r.push(x), y) == fmul(lagrange_kernel_at(r, y), fsub(1, x)),
        lagrange_kernel_at(r.push(x), y + pow2(r.len())) == fmul(
            lagrange_kernel_at(r, y),
            x % (P as nat),
        ),
{
    let n = r.len();
    let rx = r.push(x);
    let z = y + pow2(n);
    let lo = Seq::new(rx.len(), |i: int| eq_factor(rx[i], bit_of(y, i as nat)));
    let hi = Seq::new(rx.len(), |i: int| eq_factor(rx[i], bit_of(z, i as nat)));
    let base = Seq::new(n, |i: int| eq_factor(r[i], bit_of(y, i as nat)));
    lemma_bits_of_high_half(y, n, n);
    assert forall|i: int| 0 <= i < n implies lo.drop_last()[i] == base[i] && hi.drop_last()[i]
        == base[i] by {
        lemma_bits_of_high_half(y, n, i as nat);
    }
    assert(lo.drop_last() =~= base);
    assert(hi.drop_last() =~= base);
}

/// A product is affine in each of its factors:
/// `∏ s[j := u * a + w * b] == u * ∏ s[j := a] + w * ∏ s[j := b]`.
proof fn lemma_fprod_affine_in_a_factor(s: Seq<nat>, j: int, u: nat, a: nat, w: nat, b: nat)
    requires
        0 <= j < s.len(),
    ensures
        fprod(s.update(j, fadd(fmul(u, a), fmul(w, b)))) == fadd(
            fmul(u, fprod(s.update(j, a))),
            fmul(w, fprod(s.update(j, b))),
        ),
    decreases s.len(),
{
    let v = fadd(fmul(u, a), fmul(w, b));
    let sv = s.update(j, v);
    let sa = s.update(j, a);
    let sb = s.update(j, b);
    if j == s.len() - 1 {
        let q = fprod(s.drop_last());
        assert(sv.drop_last() =~= s.drop_last());
        assert(sa.drop_last() =~= s.drop_last());
        assert(sb.drop_last() =~= s.drop_last());
        lemma_scaled_product(q, u, a, w, b);
    } else {
        let d = s.drop_last();
        let l = s.last();
        assert(sv.drop_last() =~= d.update(j, v));
        assert(sa.drop_last() =~= d.update(j, a));
        assert(sb.drop_last() =~= d.update(j, b));
        lemma_fprod_affine_in_a_factor(d, j, u, a, w, b);
        let pa = fprod(d.update(j, a));
        let pb = fprod(d.update(j, b));
        lemma_scaled_product(l, u, pa, w, pb);
        lemma_fmul_comm(fadd(fmul(u, pa), fmul(w, pb)), l);
        lemma_fmul_comm(l, pa);
        lemma_fmul_comm(l, pb);
    }
}

/// The factor of one coordinate is affine in that coordinate:
/// `factor(x) == (1 - x) * factor(0) + x * factor(1)`.
proof fn lemma_eq_factor_affine(x: nat, bit: bool)
    requires
        x < P,
    ensures
        eq_factor(x, bit) == fadd(fmul(fsub(1, x), eq_factor(0, bit)), fmul(x, eq_factor(1, bit))),
{
    lemma_small_mod(0, P as nat);
    lemma_small_mod(1, P as nat);
    lemma_small_mod(x, P as nat);
    let c = fsub(1, x);
    assert(fmul(c, 0) == 0 && fmul(x, 0) == 0) by {
        assert(c * 0 == 0 && x * 0 == 0) by (nonlinear_arith);
    }
    lemma_fmul_one(c);
    lemma_fmul_one(x);
    lemma_fadd_zero(c);
    lemma_fadd_zero(x);
}

/// The multi-linear extension `F(r) = <f, kernel(r)>` is affine in each coordinate of `r`:
/// `F(r[j := x]) == (1 - x) * F(r[j := 0]) + x * F(r[j := 1])`.
pub proof fn lemma_multilinear_extension_affine(f: Seq<nat>, r: Seq<nat>, j: int, x: nat)
    requires
        f.len() == pow2(r.len()),
        0 <= j < r.len(),
        x < P,
    ensures
        inner_product_spec(f, lagrange_kernel(r.update(j, x))) == fadd(
            fmul(fsub(1, x), inner_product_spec(f, lagrange_kernel(r.update(j, 0)))),
            fmul(x, inner_product_spec(f, lagrange_kernel(r.update(j, 1)))),
        ),
{
    let n = r.len();
    let kx = lagrange_kernel(r.update(j, x));
    let k0 = lagrange_kernel(r.update(j, 0));
    let k1 = lagrange_kernel(r.update(j, 1));
    let c = fsub(1, x);
    assert forall|y: int| 0 <= y < kx.len() implies #[trigger] kx[y] == pointwise_combination(
        c,
        k0,
        x,
        k1,
    )[y] by {
        let yn = y as nat;
        let s = Seq::new(n, |i: int| eq_factor(r[i], bit_of(yn, i as nat)));
        let b = bit_of(yn, j as nat);
        assert(Seq::new(n, |i: int| eq_factor(r.update(j, x)[i], bit_of(yn, i as nat))) =~= s.update(
            j,
            eq_factor(x, b),
        ));
        assert(Seq::new(n, |i: int| eq_factor(r.update(j, 0)[i], bit_of(yn, i as nat))) =~= s.update(
            j,
            eq_factor(0, b),
        ));
        assert(Seq::new(n, |i: int| eq_factor(r.update(j, 1)[i], bit_of(yn, i as nat))) =~= s.update(
            j,
            eq_factor(1, b),
        ));
        lemma_eq_factor_affine(x, b);
        lemma_fprod_affine_in_a_factor(s, j, c, eq_factor(0, b), x, eq_factor(1, b));
    }
    assert(kx =~= pointwise_combination(c, k0, x, k1));
    lemma_inner_product_linear(f, c, k0, x, k1);
}

} // verus!
