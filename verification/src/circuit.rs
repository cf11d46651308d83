//! The GKR circuit for sums of fractions: its input wires, computed from the main trace, and
//! the composition polynomials of its sum-checks.

use vstd::prelude::*;
use vstd::arithmetic::power2::*;
use vstd::arithmetic::mul::*;
use vstd::arithmetic::div_mod::*;
use crate::field::{fadd, felts, fmul, fneg, fsub, lemma_felt_lt_p, Felt};
use crate::lagrange_ker::{inner_product_spec, lagrange_kernel, lemma_cong_canonical, EqFunction};
use crate::interpolation::{lemma_cong_add, lemma_cong_mul, lemma_field_ops_cong};
use crate::field::{lemma_fmul_assoc, lemma_fmul_comm, P};
use crate::prime_field::lemma_no_zero_divisors;
use crate::field::poly_value;
use crate::lagrange_ker::pointwise_products;
use crate::polynomial::{
    lemma_padd_value, lemma_pmul_len, lemma_pmul_value, lemma_pscale_value, lemma_psub_value, padd,
    pmul, pscale, psub,
};
use crate::multilinear::MultiLinearPoly;
use crate::sum_check::Proof as SumCheckProof;
use crate::trace_layout::{
    CHIPLETS_OFFSET, DECODER_OP_BITS_OFFSET, DECODER_USER_OP_HELPERS_OFFSET, MEMORY_D0_COL_IDX,
    MEMORY_D1_COL_IDX, M_COL_IDX, TRACE_WIDTH, V_COL_IDX,
};

verus! {

broadcast use lemma_felt_lt_p;

/// Defines the number of wires in the input layer that are generated from a single main trace row.
pub const NUM_WIRES_PER_TRACE_ROW: usize = 8;

// SPECIFICATION
// ================================================================================================

/// The numerators of the input layer at a main trace row `q` (`alpha` is the log-up
/// randomness): the range checker multiplicity, the memory flag twice, the range check flag
/// four times, and zero.
pub open spec fn fraction_numerators(q: Seq<nat>) -> Seq<nat> {
    let f_m = fmul(
        fmul(q[CHIPLETS_OFFSET as int], q[CHIPLETS_OFFSET + 1]),
        fsub(1, q[CHIPLETS_OFFSET + 2]),
    );
    let f_rc = fmul(
        fmul(fsub(1, q[DECODER_OP_BITS_OFFSET + 4]), fsub(1, q[DECODER_OP_BITS_OFFSET + 5])),
        q[DECODER_OP_BITS_OFFSET + 6],
    );
    seq![q[M_COL_IDX as int], f_m, f_m, f_rc, f_rc, f_rc, f_rc, 0nat]
}

/// The denominators of the input layer at a main trace row `q`: `alpha - v` for the range
/// checker value, `-(alpha - v)` for the memory deltas and the stack helper values, and one.
pub open spec fn fraction_denominators(q: Seq<nat>, alpha: nat) -> Seq<nat> {
    seq![
        fsub(alpha, q[V_COL_IDX as int]),
        fneg(fsub(alpha, q[MEMORY_D0_COL_IDX as int])),
        fneg(fsub(alpha, q[MEMORY_D1_COL_IDX as int])),
        fneg(fsub(alpha, q[DECODER_USER_OP_HELPERS_OFFSET as int])),
        fneg(fsub(alpha, q[DECODER_USER_OP_HELPERS_OFFSET + 1])),
        fneg(fsub(alpha, q[DECODER_USER_OP_HELPERS_OFFSET + 2])),
        fneg(fsub(alpha, q[DECODER_USER_OP_HELPERS_OFFSET + 3])),
        1nat,
    ]
}

/// `eq * ((left_num * right_den + right_num * left_den) + left_den * right_den * r)`: the
/// numerator and denominator of the sum of two fractions, batched with `r`, times `eq`.
pub open spec fn gkr_combination(
    eq: nat,
    left_num: nat,
    right_num: nat,
    left_den: nat,
    right_den: nat,
    r: nat,
) -> nat {
    fmul(
        eq,
        fadd(fadd(fmul(left_num, right_den), fmul(right_num, left_den)), fmul(fmul(left_den, right_den), r)),
    )
}

/// The entries at even indices.
pub open spec fn evens(s: Seq<nat>) -> Seq<nat> {
    Seq::new(s.len() / 2, |i: int| s[2 * i])
}

/// The entries at odd indices.
pub open spec fn odds(s: Seq<nat>) -> Seq<nat> {
    Seq::new(s.len() / 2, |i: int| s[2 * i + 1])
}

/// What the final GKR composition evaluates at a query: the fractions of the input layer,
/// split along their least significant variable, each half evaluated with the tensored merge
/// randomness, then combined as `gkr_combination` does.
pub open spec fn merge_evaluation(
    query: Seq<nat>,
    log_up_randomness: Seq<nat>,
    tensored_merge_randomness: Seq<nat>,
    combining_randomness: nat,
) -> nat {
    let nums = fraction_numerators(query);
    let dens = fraction_denominators(query, log_up_randomness[0]);
    gkr_combination(
        query[TRACE_WIDTH as int],
        inner_product_spec(evens(nums), tensored_merge_randomness),
        inner_product_spec(odds(nums), tensored_merge_randomness),
        inner_product_spec(evens(dens), tensored_merge_randomness),
        inner_product_spec(odds(dens), tensored_merge_randomness),
        combining_randomness,
    )
}

/// The sum of two fractions given as `(numerator, denominator)`:
/// `a/b + c/d = (a * d + c * b) / (b * d)`.
pub open spec fn wire_sum(x: (nat, nat), y: (nat, nat)) -> (nat, nat) {
    (fadd(fmul(x.0, y.1), fmul(y.0, x.1)), fmul(x.1, y.1))
}

// CIRCUIT WIRE
// ================================================================================================

/// Represents a fraction `numerator / denominator` as a pair `(numerator, denominator)`. This is
/// the type for the gates' inputs.
///
/// Hence, addition is defined in the natural way fractions are added together: `a/b + c/d = (ad +
/// bc) / bd`.
#[derive(Debug, Clone, Copy)]
pub struct CircuitWire {
    numerator: Felt,
    denominator: Felt,
}

impl View for CircuitWire {
    type V = (nat, nat);

    /// The numerator and the denominator.
    closed spec fn view(&self) -> (nat, nat) {
        (self.numerator@, self.denominator@)
    }
}

impl CircuitWire {
    /// The denominator of a wire is never zero.
    #[verifier::type_invariant]
    spec fn denominator_is_not_zero(self) -> bool {
        self.denominator@ != 0
    }

    /// Creates new projective coordinates from a numerator and a (non-zero) denominator.
    pub fn new(numerator: Felt, denominator: Felt) -> (res: Self)
        requires
            denominator@ != 0,
        ensures
            res@ == (numerator@, denominator@),
    {
        CircuitWire { numerator, denominator }
    }

    /// Returns the numerator.
    pub fn numerator(&self) -> (res: Felt)
        ensures
            res@ == self@.0,
    {
        self.numerator
    }

    /// Returns the denominator, which is not zero.
    pub fn denominator(&self) -> (res: Felt)
        ensures
            res@ == self@.1,
            res@ != 0,
    {
        proof {
            use_type_invariant(self);
        }
        self.denominator
    }

    /// Adds two fractions: `a/b + c/d = (ad + bc) / bd`. The denominators are not zero, and
    /// the field has no zero divisors, so neither is their product.
    pub fn add(self, other: Self) -> (res: Self)
        ensures
            res@ == wire_sum(self@, other@),
    {
        let numerator = self.numerator.mul(other.denominator).add(other.numerator.mul(self.denominator));
        let denominator = self.denominator.mul(other.denominator);
        proof {
            // the field has no zero divisors
            use_type_invariant(&self);
            use_type_invariant(&other);
            lemma_no_zero_divisors(self.denominator@, other.denominator@);
        }

        Self::new(numerator, denominator)
    }
}

// INPUT LAYER
// ================================================================================================

/// Converts a main trace row (or more generally "query") to numerators and denominators of the
/// input layer.
fn evaluate_fractions_at_main_trace_query(query: &[Felt], log_up_randomness: &[Felt]) -> (res: (
    Vec<Felt>,
    Vec<Felt>,
))
    requires
        query@.len() > MEMORY_D1_COL_IDX,
        log_up_randomness@.len() > 0,
    ensures
        felts(res.0@) == fraction_numerators(felts(query@)),
        felts(res.1@) == fraction_denominators(felts(query@), log_up_randomness@[0]@),
{
    let one = Felt::one();

    // numerators
    let multiplicity = query[M_COL_IDX];
    let f_m = {
        let mem_selec0 = query[CHIPLETS_OFFSET];
        let mem_selec1 = query[CHIPLETS_OFFSET + 1];
        let mem_selec2 = query[CHIPLETS_OFFSET + 2];
        mem_selec0.mul(mem_selec1).mul(one.sub(mem_selec2))
    };

    let f_rc = {
        let op_bit_4 = query[DECODER_OP_BITS_OFFSET + 4];
        let op_bit_5 = query[DECODER_OP_BITS_OFFSET + 5];
        let op_bit_6 = query[DECODER_OP_BITS_OFFSET + 6];

        one.sub(op_bit_4).mul(one.sub(op_bit_5)).mul(op_bit_6)
    };

    // denominators
    let alphas = log_up_randomness;

    let table_denom = alphas[0].sub(query[V_COL_IDX]);
    let memory_denom_0 = alphas[0].sub(query[MEMORY_D0_COL_IDX]).neg();
    let memory_denom_1 = alphas[0].sub(query[MEMORY_D1_COL_IDX]).neg();
    let stack_value_denom_0 = alphas[0].sub(query[DECODER_USER_OP_HELPERS_OFFSET]).neg();
    let stack_value_denom_1 = alphas[0].sub(query[DECODER_USER_OP_HELPERS_OFFSET + 1]).neg();
    let stack_value_denom_2 = alphas[0].sub(query[DECODER_USER_OP_HELPERS_OFFSET + 2]).neg();
    let stack_value_denom_3 = alphas[0].sub(query[DECODER_USER_OP_HELPERS_OFFSET + 3]).neg();

    let numerators = vec![multiplicity, f_m, f_m, f_rc, f_rc, f_rc, f_rc, Felt::zero()];
    let denominators = vec![
        table_denom,
        memory_denom_0,
        memory_denom_1,
        stack_value_denom_0,
        stack_value_denom_1,
        stack_value_denom_2,
        stack_value_denom_3,
        one,
    ];
    proof {
        assert(felts(numerators@) =~= fraction_numerators(felts(query@)));
        assert(felts(denominators@) =~= fraction_denominators(felts(query@), log_up_randomness@[0]@));
    }
    (numerators, denominators)
}

/// Computes the wires added to the input layer that come from a given main trace row (or more
/// generally, "query"); every denominator must be non-zero.
pub fn compute_input_layer_wires_at_main_trace_query(
    query: &[Felt],
    log_up_randomness: &[Felt],
) -> (res: Vec<CircuitWire>)
    requires
        query@.len() > MEMORY_D1_COL_IDX,
        log_up_randomness@.len() > 0,
        forall|k: int|
            0 <= k < NUM_WIRES_PER_TRACE_ROW ==> #[trigger] fraction_denominators(
                felts(query@),
                log_up_randomness@[0]@,
            )[k] != 0,
    ensures
        res@.len() == NUM_WIRES_PER_TRACE_ROW,
        forall|k: int|
            0 <= k < NUM_WIRES_PER_TRACE_ROW ==> (#[trigger] res@[k])@ == (
                fraction_numerators(felts(query@))[k],
                fraction_denominators(felts(query@), log_up_randomness@[0]@)[k],
            ),
{
    let (numerators, denominators) = evaluate_fractions_at_main_trace_query(query, log_up_randomness);
    let ghost nums = fraction_numerators(felts(query@));
    let ghost dens = fraction_denominators(felts(query@), log_up_randomness@[0]@);
    let mut input_gates_values: Vec<CircuitWire> = Vec::new();
    let mut k: usize = 0;
    while k < NUM_WIRES_PER_TRACE_ROW
        invariant
            k <= NUM_WIRES_PER_TRACE_ROW,
            felts(numerators@) == nums,
            felts(denominators@) == dens,
            nums.len() == NUM_WIRES_PER_TRACE_ROW,
            dens.len() == NUM_WIRES_PER_TRACE_ROW,
            forall|j: int| 0 <= j < NUM_WIRES_PER_TRACE_ROW ==> #[trigger] dens[j] != 0,
            input_gates_values@.len() == k,
            forall|j: int| 0 <= j < k ==> (#[trigger] input_gates_values@[j])@ == (nums[j], dens[j]),
        decreases NUM_WIRES_PER_TRACE_ROW - k,
    {
        proof {
            assert(numerators@.len() == nums.len());
            assert(denominators@.len() == dens.len());
            assert(dens[k as int] != 0);
        }
        input_gates_values.push(CircuitWire::new(numerators[k], denominators[k]));
        k = k + 1;
    }
    input_gates_values
}

// PROOFS AND CLAIMS
// ================================================================================================

/// The numerators and denominators of one layer of the circuit, as the evaluations of two
/// multi-linear polynomials over the Boolean hypercube.
#[derive(Debug, Clone)]
pub struct CircuitLayerPolys {
    pub numerators: Vec<Felt>,
    pub denominators: Vec<Felt>,
}

/// A GKR proof for the correct evaluation of the sum of fractions circuit.
#[derive(Debug)]
pub struct GkrCircuitProof {
    pub circuit_outputs: CircuitLayerPolys,
    pub before_final_layer_proofs: BeforeFinalLayerProof,
}

/// A set of sum-check proofs for all GKR layers but for the input circuit layer.
#[derive(Debug)]
pub struct BeforeFinalLayerProof {
    pub proof: Vec<SumCheckProof>,
}

/// Represents a claim to be proven by a subsequent call to the sum-check protocol.
#[derive(Debug)]
pub struct GkrClaim {
    pub evaluation_point: Vec<Felt>,
    pub claimed_evaluation: (Felt, Felt),
}

// COMPOSITION POLYNOMIALS
// ================================================================================================

/// A composition polynomial used in the GKR protocol for all of its sum-checks except the final
/// one.
#[derive(Clone, Copy)]
pub struct GkrComposition {
    pub combining_randomness: Felt,
}

impl GkrComposition {
    /// Creates the composition with the given combining randomness.
    pub fn new(combining_randomness: Felt) -> (res: Self)
        ensures
            res.combining_randomness == combining_randomness,
    {
        Self { combining_randomness }
    }

    /// The maximal degree of the composition in each variable.
    pub fn max_degree(&self) -> (res: u32)
        ensures
            res == 3,
    {
        3
    }

    /// Evaluates the composition at `query = [left_num, right_num, left_den, right_den, eq]`.
    pub fn evaluate(&self, query: &[Felt]) -> (res: Felt)
        requires
            query@.len() >= 5,
        ensures
            res@ == gkr_combination(
                query@[4]@,
                query@[0]@,
                query@[1]@,
                query@[2]@,
                query@[3]@,
                self.combining_randomness@,
            ),
    {
        let eval_left_numerator = query[0];
        let eval_right_numerator = query[1];
        let eval_left_denominator = query[2];
        let eval_right_denominator = query[3];
        let eq_eval = query[4];
        eq_eval.mul(
            eval_left_numerator.mul(eval_right_denominator).add(
                eval_right_numerator.mul(eval_left_denominator),
            ).add(
                eval_left_denominator.mul(eval_right_denominator).mul(self.combining_randomness),
            ),
        )
    }
}

/// A composition polynomial used in the GKR protocol for its final sum-check.
#[derive(Clone)]
pub struct GkrCompositionMerge {
    pub sum_check_combining_randomness: Felt,
    pub tensored_merge_randomness: Vec<Felt>,
    pub log_up_randomness: Vec<Felt>,
}

impl GkrCompositionMerge {
    /// Creates the composition; the merge randomness is tensored into the Lagrange kernel at
    /// it.
    pub fn new(
        combining_randomness: Felt,
        merge_randomness: Vec<Felt>,
        log_up_randomness: Vec<Felt>,
    ) -> (res: Self)
        requires
            merge_randomness@.len() < usize::BITS,
        ensures
            res.sum_check_combining_randomness == combining_randomness,
            felts(res.tensored_merge_randomness@) == lagrange_kernel(felts(merge_randomness@)),
            res.log_up_randomness == log_up_randomness,
    {
        let ml = EqFunction::ml_at(merge_randomness);
        let evaluations = ml.evaluations();
        let mut tensored_merge_randomness: Vec<Felt> = Vec::new();
        let mut k: usize = 0;
        while k < evaluations.len()
            invariant
                k <= evaluations@.len(),
                tensored_merge_randomness@.len() == k,
                forall|j: int| 0 <= j < k ==> #[trigger] tensored_merge_randomness@[j] == evaluations@[j],
            decreases evaluations@.len() - k,
        {
            tensored_merge_randomness.push(evaluations[k]);
            k = k + 1;
        }
        proof {
            assert(tensored_merge_randomness@ =~= evaluations@);
        }

        Self {
            sum_check_combining_randomness: combining_randomness,
            tensored_merge_randomness,
            log_up_randomness,
        }
    }

    /// The maximal degree of the composition in each variable, computed as
    /// `1 + max(left_numerator_degree + right_denom_degree, right_numerator_degree +
    /// left_denom_degree)`.
    pub fn max_degree(&self) -> (res: u32)
        ensures
            res == 5,
    {
        5
    }

    /// Evaluates the composition at a query holding a main trace row followed by the value of
    /// the EQ function.
    pub fn evaluate(&self, query: &[Felt]) -> (res: Felt)
        requires
            query@.len() > TRACE_WIDTH,
            self.log_up_randomness@.len() > 0,
            self.tensored_merge_randomness@.len() == 4,
        ensures
            res@ == merge_evaluation(
                felts(query@),
                felts(self.log_up_randomness@),
                felts(self.tensored_merge_randomness@),
                self.sum_check_combining_randomness@,
            ),
    {
        let (numerators, denominators) = evaluate_fractions_at_main_trace_query(
            query,
            self.log_up_randomness.as_slice(),
        );
        proof {
            lemma2_to64();
            assert(pow2(3) == 8);
            assert(numerators@.len() == felts(numerators@).len());
            assert(denominators@.len() == felts(denominators@).len());
        }

        let numerators = match MultiLinearPoly::from_evaluations(numerators) {
            Ok(poly) => poly,
            Err(_) => vstd::pervasive::unreached(),
        };
        let denominators = match MultiLinearPoly::from_evaluations(denominators) {
            Ok(poly) => poly,
            Err(_) => vstd::pervasive::unreached(),
        };
        proof {
            if numerators.num_variables() != 3 {
                if numerators.num_variables() < 3 {
                    lemma_pow2_strictly_increases(numerators.num_variables() as nat, 3);
                } else {
                    lemma_pow2_strictly_increases(3, numerators.num_variables() as nat);
                }
            }
            if denominators.num_variables() != 3 {
                if denominators.num_variables() < 3 {
                    lemma_pow2_strictly_increases(denominators.num_variables() as nat, 3);
                } else {
                    lemma_pow2_strictly_increases(3, denominators.num_variables() as nat);
                }
            }
        }

        let (left_numerators, right_numerators) = numerators.project_least_significant_variable();
        let (left_denominators, right_denominators) =
            denominators.project_least_significant_variable();

        let tensored = self.tensored_merge_randomness.as_slice();
        let eval_left_numerators = left_numerators.evaluate_with_lagrange_kernel(tensored);
        let eval_right_numerators = right_numerators.evaluate_with_lagrange_kernel(tensored);

        let eval_left_denominators = left_denominators.evaluate_with_lagrange_kernel(tensored);
        let eval_right_denominators = right_denominators.evaluate_with_lagrange_kernel(tensored);

        let eq_eval = query[TRACE_WIDTH];

        proof {
            let nums = fraction_numerators(felts(query@));
            let dens = fraction_denominators(felts(query@), felts(self.log_up_randomness@)[0]);
            assert(left_numerators@ =~= evens(nums));
            assert(right_numerators@ =~= odds(nums));
            assert(left_denominators@ =~= evens(dens));
            assert(right_denominators@ =~= odds(dens));
        }

        eq_eval.mul(
            eval_left_numerators.mul(eval_right_denominators).add(
                eval_right_numerators.mul(eval_left_denominators),
            ).add(
                eval_left_denominators.mul(eval_right_denominators).mul(
                    self.sum_check_combining_randomness,
                ),
            ),
        )
    }
}

// LAWS ON FRACTIONS
// ================================================================================================

/// The sum of fractions is commutative, numerator and denominator alike.
pub proof fn lemma_wire_sum_commutative(x: (nat, nat), y: (nat, nat))
    ensures
        wire_sum(x, y) == wire_sum(y, x),
{
    lemma_fmul_comm(x.1, y.1);
    lemma_fmul_comm(x.0, y.1);
    lemma_fmul_comm(y.0, x.1);
}

/// The integer identity behind associativity:
/// `(a d + c b) f + e (b d) == a (d f) + (c f + e d) b`.
proof fn lemma_fraction_sum_identity(a: int, b: int, c: int, d: int, e: int, f: int)
    ensures
        (a * d + c * b) * f + e * (b * d) == a * (d * f) + (c * f + e * d) * b,
{
    lemma_mul_is_distributive_add_other_way(f, a * d, c * b);
    lemma_mul_is_distributive_add_other_way(b, c * f, e * d);
    lemma_mul_is_associative(a, d, f);
    lemma_mul_is_associative(c, b, f);
    lemma_mul_is_associative(c, f, b);
    lemma_mul_is_commutative(b, f);
    lemma_mul_is_associative(e, b, d);
    lemma_mul_is_associative(e, d, b);
    lemma_mul_is_commutative(b, d);
}

/// The sum of fractions is associative, numerator and denominator alike.
pub proof fn lemma_wire_sum_associative(x: (nat, nat), y: (nat, nat), z: (nat, nat))
    ensures
        wire_sum(wire_sum(x, y), z) == wire_sum(x, wire_sum(y, z)),
{
    let (a, b, c, d, e, f) = (x.0, x.1, y.0, y.1, z.0, z.1);
    let (ai, bi, ci, di, ei, fi) = (a as int, b as int, c as int, d as int, e as int, f as int);
    lemma_fmul_assoc(b, d, f);
    // left: ((a * d + c * b) * f) + e * (b * d)
    let ad = fmul(a, d);
    let cb = fmul(c, b);
    let s1 = fadd(ad, cb);
    let bd = fmul(b, d);
    let m1 = fmul(s1, f);
    let m2 = fmul(e, bd);
    lemma_field_ops_cong(a, d);
    lemma_field_ops_cong(c, b);
    lemma_field_ops_cong(ad, cb);
    lemma_cong_add(ad as int, cb as int, ai * di, ci * bi);
    lemma_field_ops_cong(s1, f);
    lemma_cong_mul(s1 as int, fi, ai * di + ci * bi, fi);
    lemma_field_ops_cong(b, d);
    lemma_field_ops_cong(e, bd);
    lemma_cong_mul(ei, bd as int, ei, bi * di);
    lemma_field_ops_cong(m1, m2);
    lemma_cong_add(m1 as int, m2 as int, (ai * di + ci * bi) * fi, ei * (bi * di));
    // right: a * (d * f) + (c * f + e * d) * b
    let df = fmul(d, f);
    let cf = fmul(c, f);
    let ed = fmul(e, d);
    let s2 = fadd(cf, ed);
    let m3 = fmul(a, df);
    let m4 = fmul(s2, b);
    lemma_field_ops_cong(d, f);
    lemma_field_ops_cong(a, df);
    lemma_cong_mul(ai, df as int, ai, di * fi);
    lemma_field_ops_cong(c, f);
    lemma_field_ops_cong(e, d);
    lemma_field_ops_cong(cf, ed);
    lemma_cong_add(cf as int, ed as int, ci * fi, ei * di);
    lemma_field_ops_cong(s2, b);
    lemma_cong_mul(s2 as int, bi, ci * fi + ei * di, bi);
    lemma_field_ops_cong(m3, m4);
    lemma_cong_add(m3 as int, m4 as int, ai * (di * fi), (ci * fi + ei * di) * bi);
    lemma_fraction_sum_identity(ai, bi, ci, di, ei, fi);
    lemma_cong_canonical(fadd(m1, m2), fadd(m3, m4));
}

// DEGREE OF THE COMPOSITIONS ALONG A LINE
// ================================================================================================

/// The point `query + x * dir`.
#[verifier::opaque]
pub open spec fn line_point(query: Seq<nat>, dir: Seq<nat>, x: nat) -> Seq<nat> {
    Seq::new(query.len(), |i: int| fadd(query[i], fmul(x, dir[i])))
}

/// Entry `i` along the line, a polynomial of degree one in `x`: `query[i] + dir[i] * x`.
pub open spec fn line_entry(query: Seq<nat>, dir: Seq<nat>, i: int) -> Seq<nat> {
    seq![query[i], dir[i]]
}

/// The polynomial in `x` that `GkrComposition::evaluate` computes along the line.
pub open spec fn gkr_line_polynomial(query: Seq<nat>, dir: Seq<nat>, r: nat) -> Seq<nat> {
    let e0 = line_entry(query, dir, 0);
    let e1 = line_entry(query, dir, 1);
    let e2 = line_entry(query, dir, 2);
    let e3 = line_entry(query, dir, 3);
    let e4 = line_entry(query, dir, 4);
    pmul(e4, padd(padd(pmul(e0, e3), pmul(e1, e2)), pscale(r, pmul(e2, e3))))
}

/// The numerators of the input layer along the line, as polynomials in `x`.
pub open spec fn numerator_polynomials(query: Seq<nat>, dir: Seq<nat>) -> Seq<Seq<nat>> {
    let one = seq![1nat];
    let c = CHIPLETS_OFFSET as int;
    let d = DECODER_OP_BITS_OFFSET as int;
    let f_m = pmul(
        pmul(line_entry(query, dir, c), line_entry(query, dir, c + 1)),
        psub(one, line_entry(query, dir, c + 2)),
    );
    let f_rc = pmul(
        pmul(psub(one, line_entry(query, dir, d + 4)), psub(one, line_entry(query, dir, d + 5))),
        line_entry(query, dir, d + 6),
    );
    seq![line_entry(query, dir, M_COL_IDX as int), f_m, f_m, f_rc, f_rc, f_rc, f_rc, seq![0nat]]
}

/// `alpha - (query[i] + dir[i] * x)`, a polynomial of degree one in `x`.
#[verifier::opaque]
pub open spec fn difference_polynomial(query: Seq<nat>, dir: Seq<nat>, alpha: nat, i: int) -> Seq<
    nat,
> {
    psub(seq![alpha], line_entry(query, dir, i))
}

/// `-(alpha - (query[i] + dir[i] * x))`, a polynomial of degree one in `x`.
#[verifier::opaque]
pub open spec fn negated_difference_polynomial(
    query: Seq<nat>,
    dir: Seq<nat>,
    alpha: nat,
    i: int,
) -> Seq<nat> {
    psub(seq![], difference_polynomial(query, dir, alpha, i))
}

/// The denominators of the input layer along the line, as polynomials in `x`.
pub open spec fn denominator_polynomials(query: Seq<nat>, dir: Seq<nat>, alpha: nat) -> Seq<
    Seq<nat>,
> {
    let h = DECODER_USER_OP_HELPERS_OFFSET as int;
    seq![
        difference_polynomial(query, dir, alpha, V_COL_IDX as int),
        negated_difference_polynomial(query, dir, alpha, MEMORY_D0_COL_IDX as int),
        negated_difference_polynomial(query, dir, alpha, MEMORY_D1_COL_IDX as int),
        negated_difference_polynomial(query, dir, alpha, h),
        negated_difference_polynomial(query, dir, alpha, h + 1),
        negated_difference_polynomial(query, dir, alpha, h + 2),
        negated_difference_polynomial(query, dir, alpha, h + 3),
        seq![1nat],
    ]
}

/// `Σ_k t[k] * ps[k]` over the polynomials `ps`.
pub open spec fn combine_polynomials(ps: Seq<Seq<nat>>, t: Seq<nat>) -> Seq<nat>
    decreases ps.len(),
{
    if ps.len() == 0 {
        seq![]
    } else {
        padd(combine_polynomials(ps.drop_last(), t), pscale(t[ps.len() - 1], ps.last()))
    }
}

/// The polynomials at even indices.
pub open spec fn even_polynomials(ps: Seq<Seq<nat>>) -> Seq<Seq<nat>> {
    Seq::new(ps.len() / 2, |i: int| ps[2 * i])
}

/// The polynomials at odd indices.
pub open spec fn odd_polynomials(ps: Seq<Seq<nat>>) -> Seq<Seq<nat>> {
    Seq::new(ps.len() / 2, |i: int| ps[2 * i + 1])
}

/// The polynomial in `x` that `GkrCompositionMerge::evaluate` computes along the line.
pub open spec fn merge_line_polynomial(
    query: Seq<nat>,
    dir: Seq<nat>,
    alpha: nat,
    tensored_merge_randomness: Seq<nat>,
    r: nat,
) -> Seq<nat> {
    let t = tensored_merge_randomness;
    let nums = numerator_polynomials(query, dir);
    let dens = denominator_polynomials(query, dir, alpha);
    let ln = combine_polynomials(even_polynomials(nums), t);
    let rn = combine_polynomials(odd_polynomials(nums), t);
    let ld = combine_polynomials(even_polynomials(dens), t);
    let rd = combine_polynomials(odd_polynomials(dens), t);
    let eq = line_entry(query, dir, TRACE_WIDTH as int);
    pmul(eq, padd(padd(pmul(ln, rd), pmul(rn, ld)), pscale(r, pmul(ld, rd))))
}

/// A constant polynomial.
proof fn lemma_constant_polynomial(c: nat, x: nat)
    requires
        c < P,
    ensures
        poly_value(seq![c], x) == c,
        poly_value(seq![], x) == 0,
{
    let e = seq![c].drop_first();
    assert(e.len() == 0);
    assert(poly_value(e, x) == 0);
    assert(0nat * x == 0) by (nonlinear_arith);
    assert(fmul(0, x) == 0) by {
        lemma_small_mod(0, P as nat);
    }
    lemma_small_mod(c, P as nat);
    lemma_small_mod(0, P as nat);
}

/// Entry `i` of the line evaluates to the entry of the point.
proof fn lemma_line_entry_value(query: Seq<nat>, dir: Seq<nat>, i: int, x: nat)
    requires
        0 <= i < query.len(),
        dir.len() == query.len(),
        query[i] < P,
        dir[i] < P,
    ensures
        poly_value(line_entry(query, dir, i), x) == line_point(query, dir, x)[i],
{
    let e = line_entry(query, dir, i);
    reveal(line_point);
    assert(e.drop_first() =~= seq![dir[i]]);
    lemma_constant_polynomial(dir[i], x);
    lemma_fmul_comm(dir[i], x);
}

/// `combine_polynomials` evaluates to the inner product of the values with `t`, and has at
/// most as many coefficients as the longest polynomial.
proof fn lemma_combine_polynomials(ps: Seq<Seq<nat>>, vals: Seq<nat>, t: Seq<nat>, x: nat, bound: nat)
    requires
        ps.len() == vals.len(),
        forall|k: int| 0 <= k < ps.len() ==> poly_value(#[trigger] ps[k], x) == vals[k],
        forall|k: int| 0 <= k < ps.len() ==> 1 <= (#[trigger] ps[k]).len() <= bound,
    ensures
        poly_value(combine_polynomials(ps, t), x) == inner_product_spec(vals, t),
        ps.len() > 0 ==> 1 <= combine_polynomials(ps, t).len() <= bound,
        combine_polynomials(ps, t).len() <= bound,
    decreases ps.len(),
{
    if ps.len() == 0 {
        lemma_constant_polynomial(0, x);
    } else {
        let n = ps.len();
        lemma_combine_polynomials(ps.drop_last(), vals.drop_last(), t, x, bound);
        let rest = combine_polynomials(ps.drop_last(), t);
        let last = pscale(t[n - 1], ps.last());
        lemma_padd_value(rest, last, x);
        lemma_pscale_value(t[n - 1], ps.last(), x);
        lemma_fmul_comm(t[n - 1], vals.last());
        assert(pointwise_products(vals, t).drop_last() =~= pointwise_products(vals.drop_last(), t));
    }
}

/// Along any line `query + x * dir`, the composition of `GkrComposition::evaluate` is a
/// polynomial in `x` of degree at most `max_degree() == 3`: it has at most four coefficients.
#[verifier::spinoff_prover]
#[verifier::rlimit(40)]
pub proof fn lemma_gkr_composition_degree(query: Seq<nat>, dir: Seq<nat>, r: nat, x: nat)
    requires
        query.len() >= 5,
        dir.len() == query.len(),
        forall|i: int| 0 <= i < query.len() ==> query[i] < P && dir[i] < P,
    ensures
        gkr_line_polynomial(query, dir, r).len() <= 4,
        gkr_combination(
            line_point(query, dir, x)[4],
            line_point(query, dir, x)[0],
            line_point(query, dir, x)[1],
            line_point(query, dir, x)[2],
            line_point(query, dir, x)[3],
            r,
        ) == poly_value(gkr_line_polynomial(query, dir, r), x),
{
    let e0 = line_entry(query, dir, 0);
    let e1 = line_entry(query, dir, 1);
    let e2 = line_entry(query, dir, 2);
    let e3 = line_entry(query, dir, 3);
    let e4 = line_entry(query, dir, 4);
    let q = line_point(query, dir, x);
    lemma_line_entry_value(query, dir, 0, x);
    lemma_line_entry_value(query, dir, 1, x);
    lemma_line_entry_value(query, dir, 2, x);
    lemma_line_entry_value(query, dir, 3, x);
    lemma_line_entry_value(query, dir, 4, x);
    let p03 = pmul(e0, e3);
    let p12 = pmul(e1, e2);
    let p23 = pmul(e2, e3);
    let sum = padd(p03, p12);
    let inner = padd(sum, pscale(r, p23));
    lemma_pmul_len(e0, e3);
    lemma_pmul_len(e1, e2);
    lemma_pmul_len(e2, e3);
    lemma_pmul_len(e4, inner);
    lemma_pmul_value(e0, e3, x);
    lemma_pmul_value(e1, e2, x);
    lemma_pmul_value(e2, e3, x);
    lemma_padd_value(p03, p12, x);
    lemma_pscale_value(r, p23, x);
    lemma_padd_value(sum, pscale(r, p23), x);
    lemma_pmul_value(e4, inner, x);
    lemma_fmul_comm(r, fmul(q[2], q[3]));
}

/// The numerator polynomials evaluate to the numerators at the point of the line, and have
/// between one and four coefficients.
#[verifier::spinoff_prover]
#[verifier::rlimit(40)]
proof fn lemma_numerator_polynomials(query: Seq<nat>, dir: Seq<nat>, x: nat)
    requires
        query.len() > TRACE_WIDTH,
        dir.len() == query.len(),
        forall|i: int| 0 <= i < query.len() ==> query[i] < P && dir[i] < P,
    ensures
        numerator_polynomials(query, dir).len() == NUM_WIRES_PER_TRACE_ROW,
        forall|k: int|
            0 <= k < NUM_WIRES_PER_TRACE_ROW ==> poly_value(
                #[trigger] numerator_polynomials(query, dir)[k],
                x,
            ) == fraction_numerators(line_point(query, dir, x))[k],
        forall|k: int|
            0 <= k < NUM_WIRES_PER_TRACE_ROW ==> 1 <= (#[trigger] numerator_polynomials(
                query,
                dir,
            )[k]).len() <= 4,
{
    let one = seq![1nat];
    let c = CHIPLETS_OFFSET as int;
    let d = DECODER_OP_BITS_OFFSET as int;
    let e = |i: int| line_entry(query, dir, i);
    lemma_constant_polynomial(1, x);
    lemma_constant_polynomial(0, x);
    lemma_line_entry_value(query, dir, M_COL_IDX as int, x);
    lemma_line_entry_value(query, dir, c, x);
    lemma_line_entry_value(query, dir, c + 1, x);
    lemma_line_entry_value(query, dir, c + 2, x);
    lemma_line_entry_value(query, dir, d + 4, x);
    lemma_line_entry_value(query, dir, d + 5, x);
    lemma_line_entry_value(query, dir, d + 6, x);
    // f_m
    let m01 = pmul(e(c), e(c + 1));
    let m2 = psub(one, e(c + 2));
    lemma_pmul_len(e(c), e(c + 1));
    lemma_pmul_len(m01, m2);
    lemma_pmul_value(e(c), e(c + 1), x);
    lemma_psub_value(one, e(c + 2), x);
    lemma_pmul_value(m01, m2, x);
    // f_rc
    let b4 = psub(one, e(d + 4));
    let b5 = psub(one, e(d + 5));
    let b45 = pmul(b4, b5);
    lemma_psub_value(one, e(d + 4), x);
    lemma_psub_value(one, e(d + 5), x);
    lemma_pmul_len(b4, b5);
    lemma_pmul_len(b45, e(d + 6));
    lemma_pmul_value(b4, b5, x);
    lemma_pmul_value(b45, e(d + 6), x);
    let nums = numerator_polynomials(query, dir);
    let vals = fraction_numerators(line_point(query, dir, x));
    assert forall|k: int| 0 <= k < NUM_WIRES_PER_TRACE_ROW implies poly_value(#[trigger] nums[k], x)
        == vals[k] && 1 <= nums[k].len() <= 4 by {
        if k == 0 {
        } else if k <= 2 {
        } else if k <= 6 {
        } else {
        }
    }
}

/// `alpha - query[i]` and `-(alpha - query[i])` along the line, as polynomials of degree one.
proof fn lemma_denominator_entry(query: Seq<nat>, dir: Seq<nat>, alpha: nat, i: int, x: nat)
    requires
        0 <= i < query.len(),
        dir.len() == query.len(),
        query[i] < P,
        dir[i] < P,
        alpha < P,
    ensures
        poly_value(difference_polynomial(query, dir, alpha, i), x) == fsub(
            alpha,
            line_point(query, dir, x)[i],
        ),
        poly_value(negated_difference_polynomial(query, dir, alpha, i), x) == fneg(
            fsub(alpha, line_point(query, dir, x)[i]),
        ),
        difference_polynomial(query, dir, alpha, i).len() == 2,
        negated_difference_polynomial(query, dir, alpha, i).len() == 2,
{
    let a = seq![alpha];
    let e = line_entry(query, dir, i);
    reveal(difference_polynomial);
    reveal(negated_difference_polynomial);
    lemma_constant_polynomial(alpha, x);
    lemma_line_entry_value(query, dir, i, x);
    lemma_psub_value(a, e, x);
    lemma_psub_value(seq![], psub(a, e), x);
}

/// The denominator polynomials evaluate to the denominators at the point of the line, and
/// have one or two coefficients.
#[verifier::spinoff_prover]
#[verifier::rlimit(40)]
proof fn lemma_denominator_polynomials(query: Seq<nat>, dir: Seq<nat>, alpha: nat, x: nat)
    requires
        query.len() > TRACE_WIDTH,
        dir.len() == query.len(),
        forall|i: int| 0 <= i < query.len() ==> query[i] < P && dir[i] < P,
        alpha < P,
    ensures
        denominator_polynomials(query, dir, alpha).len() == NUM_WIRES_PER_TRACE_ROW,
        forall|k: int|
            0 <= k < NUM_WIRES_PER_TRACE_ROW ==> poly_value(
                #[trigger] denominator_polynomials(query, dir, alpha)[k],
                x,
            ) == fraction_denominators(line_point(query, dir, x), alpha)[k],
        forall|k: int|
            0 <= k < NUM_WIRES_PER_TRACE_ROW ==> 1 <= (#[trigger] denominator_polynomials(
                query,
                dir,
                alpha,
            )[k]).len() <= 2,
{
    let h = DECODER_USER_OP_HELPERS_OFFSET as int;
    lemma_constant_polynomial(1, x);
    lemma_denominator_entry(query, dir, alpha, V_COL_IDX as int, x);
    lemma_denominator_entry(query, dir, alpha, MEMORY_D0_COL_IDX as int, x);
    lemma_denominator_entry(query, dir, alpha, MEMORY_D1_COL_IDX as int, x);
    lemma_denominator_entry(query, dir, alpha, h, x);
    lemma_denominator_entry(query, dir, alpha, h + 1, x);
    lemma_denominator_entry(query, dir, alpha, h + 2, x);
    lemma_denominator_entry(query, dir, alpha, h + 3, x);
    let dens = denominator_polynomials(query, dir, alpha);
    let q = line_point(query, dir, x);
    let vals = fraction_denominators(q, alpha);
    let pv = Seq::new(8, |k: int| poly_value(dens[k], x));
    assert(pv =~= vals);
    assert forall|k: int| 0 <= k < NUM_WIRES_PER_TRACE_ROW implies poly_value(#[trigger] dens[k], x)
        == vals[k] && 1 <= dens[k].len() <= 2 by {
        assert(pv[k] == vals[k]);
    }
}

/// Along any line `query + x * dir`, the composition of `GkrCompositionMerge::evaluate` is a
/// polynomial in `x` of degree at most `max_degree() == 5`: it has at most six coefficients.
/// (The numerators have degree at most three, the denominators degree one, and the EQ value
/// one more.)
#[verifier::spinoff_prover]
#[verifier::rlimit(40)]
pub proof fn lemma_merge_composition_degree(
    query: Seq<nat>,
    dir: Seq<nat>,
    log_up_randomness: Seq<nat>,
    tensored_merge_randomness: Seq<nat>,
    r: nat,
    x: nat,
)
    requires
        query.len() > TRACE_WIDTH,
        dir.len() == query.len(),
        forall|i: int| 0 <= i < query.len() ==> query[i] < P && dir[i] < P,
        log_up_randomness.len() > 0,
        log_up_randomness[0] < P,
    ensures
        merge_line_polynomial(
            query,
            dir,
            log_up_randomness[0],
            tensored_merge_randomness,
            r,
        ).len() <= 6,
        merge_evaluation(line_point(query, dir, x), log_up_randomness, tensored_merge_randomness, r)
            == poly_value(
            merge_line_polynomial(query, dir, log_up_randomness[0], tensored_merge_randomness, r),
            x,
        ),
{
    let t = tensored_merge_randomness;
    let alpha = log_up_randomness[0];
    let q = line_point(query, dir, x);
    let nums = numerator_polynomials(query, dir);
    let dens = denominator_polynomials(query, dir, alpha);
    let nv = fraction_numerators(q);
    let dv = fraction_denominators(q, alpha);
    lemma_numerator_polynomials(query, dir, x);
    lemma_denominator_polynomials(query, dir, alpha, x);
    // the four combinations
    lemma_combine_polynomials(even_polynomials(nums), evens(nv), t, x, 4);
    lemma_combine_polynomials(odd_polynomials(nums), odds(nv), t, x, 4);
    lemma_combine_polynomials(even_polynomials(dens), evens(dv), t, x, 2);
    lemma_combine_polynomials(odd_polynomials(dens), odds(dv), t, x, 2);
    let ln = combine_polynomials(even_polynomials(nums), t);
    let rn = combine_polynomials(odd_polynomials(nums), t);
    let ld = combine_polynomials(even_polynomials(dens), t);
    let rd = combine_polynomials(odd_polynomials(dens), t);
    let eq = line_entry(query, dir, TRACE_WIDTH as int);
    lemma_line_entry_value(query, dir, TRACE_WIDTH as int, x);
    let a = pmul(ln, rd);
    let b = pmul(rn, ld);
    let c = pmul(ld, rd);
    let sum = padd(a, b);
    let inner = padd(sum, pscale(r, c));
    lemma_pmul_len(ln, rd);
    lemma_pmul_len(rn, ld);
    lemma_pmul_len(ld, rd);
    lemma_pmul_len(eq, inner);
    lemma_pmul_value(ln, rd, x);
    lemma_pmul_value(rn, ld, x);
    lemma_pmul_value(ld, rd, x);
    lemma_padd_value(a, b, x);
    lemma_pscale_value(r, c, x);
    lemma_padd_value(sum, pscale(r, c), x);
    lemma_pmul_value(eq, inner, x);
    lemma_fmul_comm(r, poly_value(c, x));
}

} // verus!
