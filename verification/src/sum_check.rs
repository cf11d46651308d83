//! Data of the sum-check protocol: round proofs, proofs, round claims and final opening
//! claims.

use vstd::prelude::*;
use vstd::arithmetic::div_mod::*;
use crate::field::{fadd, felts, fsub, lemma_felt_lt_p, poly_value, Felt, P};
use crate::interpolation::{
    lemma_to_poly_interpolates,
    lemma_to_poly_takes_the_values, values_at_nodes,
};
use crate::univariate::{
    complete_coefficients, lemma_claim_is_sum_at_zero_and_one, to_poly_coefficients,
    UnivariatePolyEvals,
};
use crate::field::lemma_poly_value_lt_p;

verus! {

broadcast use lemma_felt_lt_p;

/// The evaluations `s(0), s(1), ..., s(n)` of a round polynomial, `s(0)` recovered from the
/// claim `s(0) + s(1) = claim`.
pub open spec fn round_evals(poly_evals: Seq<nat>, claim: nat) -> Seq<nat> {
    seq![fsub(claim, poly_evals[0])] + poly_evals
}

/// The value at `x` of the polynomial of degree below `evals.len()` that takes the value
/// `evals[i]` at the point `i`, as recovered from those values: a single value is a constant;
/// otherwise the coefficients are those that `UnivariatePolyEvals::to_poly` finds from the
/// values at `1, ..., n` and the claim `p(0) + p(1)`, with the linear one put back.
pub open spec fn interpolated_value(evals: Seq<nat>, x: nat) -> nat {
    if evals.len() == 1 {
        evals[0]
    } else {
        let claim = fadd(evals[0], evals[1]);
        poly_value(complete_coefficients(to_poly_coefficients(evals.drop_first(), claim), claim), x)
    }
}

/// The values of a polynomial at the points `0, 1, ..., n`.
pub open spec fn values_from_zero(p: Seq<nat>, n: nat) -> Seq<nat> {
    Seq::new(n + 1, |k: int| poly_value(p, k as nat))
}

/// The points `0, 1, ..., max_degree` over which round polynomials of degree at most
/// `max_degree` are given by their evaluations.
pub struct EvaluationDomain {
    max_degree: usize,
}

impl EvaluationDomain {
    /// The largest degree of a polynomial over this domain.
    pub closed spec fn degree(&self) -> nat {
        self.max_degree as nat
    }

    #[verifier::type_invariant]
    spec fn points_fit(self) -> bool {
        self.max_degree < u32::MAX
    }

    /// The domain of the points `0, 1, ..., max_degree`.
    pub fn new(max_degree: usize) -> (res: EvaluationDomain)
        requires
            max_degree < u32::MAX,
        ensures
            res.degree() == max_degree,
    {
        EvaluationDomain { max_degree }
    }

    /// Evaluates at `x` the polynomial of degree at most `max_degree` whose evaluations at
    /// `0, 1, ..., max_degree` are `evals`: at a point of the domain this is the value given
    /// there, and it is the value at `x` of every polynomial with those evaluations.
    pub fn evaluate(&self, evals: &[Felt], x: Felt) -> (res: Felt)
        requires
            evals@.len() == self.degree() + 1,
        ensures
            res@ == interpolated_value(felts(evals@), x@),
            x@ < evals@.len() ==> res@ == felts(evals@)[x@ as int],
            forall|p: Seq<nat>|
                p.len() == evals@.len() && (forall|i: int| 0 <= i < p.len() ==> p[i] < P)
                    && #[trigger] values_from_zero(p, self.degree()) == felts(evals@) ==> res@
                    == poly_value(p, x@),
    {
        proof {
            use_type_invariant(self);
        }
        let ghost e = felts(evals@);
        let n = evals.len();
        if n == 1 {
            proof {
                assert forall|p: Seq<nat>|
                    p.len() == 1 && (forall|i: int| 0 <= i < p.len() ==> p[i] < P)
                        && #[trigger] values_from_zero(p, self.degree()) == e implies e[0]
                    == poly_value(p, x@) by {
                    lemma_constant_value(p, 0);
                    lemma_constant_value(p, x@);
                    assert(values_from_zero(p, 0)[0] == poly_value(p, 0));
                }
            }
            return evals[0];
        }
        // p(0) + p(1) plays the part of the round claim
        let claim = evals[0].add(evals[1]);
        let mut partial_evaluations: Vec<Felt> = Vec::new();
        let mut i: usize = 1;
        while i < n
            invariant
                n == evals@.len(),
                1 <= i <= n,
                partial_evaluations@.len() == i - 1,
                forall|j: int| 0 <= j < i - 1 ==> #[trigger] partial_evaluations@[j] == evals@[j + 1],
            decreases n - i,
        {
            partial_evaluations.push(evals[i]);
            i = i + 1;
        }
        proof {
            assert(felts(partial_evaluations@) =~= e.drop_first());
        }
        let partial = UnivariatePolyEvals { partial_evaluations };
        let poly = partial.to_poly(claim);
        proof {
            assert(felts(poly.coefficients@).len() == n - 1);
            lemma_interpolated_value_facts(e, felts(poly.coefficients@), x@);
        }
        poly.evaluate_using_claim(&claim, &x)
    }
}

/// A polynomial with one coefficient is constant.
proof fn lemma_constant_value(p: Seq<nat>, x: nat)
    requires
        p.len() == 1,
        p[0] < P,
    ensures
        poly_value(p, x) == p[0],
{
    let q = p.drop_first();
    assert(q.len() == 0);
    assert(poly_value(q, x) == 0);
    lemma_small_mod(p[0], P as nat);
    lemma_small_mod(0, P as nat);
    assert(0nat * x == 0) by (nonlinear_arith);
}

/// From what `to_poly` states of the coefficients it finds from `e[1..]` and the claim
/// `e[0] + e[1]`: the interpolated value at a point of the domain is the value given there,
/// and it is the value of every polynomial with the values `e` at `0, ..., n`.
proof fn lemma_interpolated_value_facts(e: Seq<nat>, coefs: Seq<nat>, x: nat)
    requires
        e.len() >= 2,
        forall|i: int| 0 <= i < e.len() ==> e[i] < P,
        coefs == to_poly_coefficients(e.drop_first(), fadd(e[0], e[1])),
        values_at_nodes(
            complete_coefficients(coefs, fadd(e[0], e[1])),
            (e.len() - 1) as nat,
        ) == e.drop_first(),
        forall|p: Seq<nat>|
            p.len() == e.len() && (forall|i: int| 0 <= i < p.len() ==> p[i] < P)
                && #[trigger] values_at_nodes(p, (e.len() - 1) as nat) == e.drop_first() && fadd(
                poly_value(p, 0),
                poly_value(p, 1),
            ) == fadd(e[0], e[1]) ==> complete_coefficients(coefs, fadd(e[0], e[1])) == p,
    ensures
        x < e.len() ==> interpolated_value(e, x) == e[x as int],
        forall|p: Seq<nat>|
            p.len() == e.len() && (forall|i: int| 0 <= i < p.len() ==> p[i] < P)
                && #[trigger] values_from_zero(p, (e.len() - 1) as nat) == e ==> interpolated_value(
                e,
                x,
            ) == poly_value(p, x),
{
    let n = (e.len() - 1) as nat;
    let claim = fadd(e[0], e[1]);
    let cc = complete_coefficients(coefs, claim);
    if x < e.len() {
        if x == 0 {
            // p(0) + p(1) = claim = e0 + e1 and p(1) = e1
            assert(coefs.len() == n);
            assert forall|j: int| 0 <= j < coefs.len() implies coefs[j] < P by {}
            lemma_claim_is_sum_at_zero_and_one(coefs, claim);
            assert(poly_value(cc, 1) == values_at_nodes(cc, n)[0]);
            let p0 = poly_value(cc, 0);
            lemma_poly_value_lt_p(cc, 0);
            let (e0, e1) = (e[0], e[1]);
            assert(p0 == e0) by (nonlinear_arith)
                requires
                    (p0 + e1) % (P as nat) == (e0 + e1) % (P as nat),
                    p0 < P,
                    e0 < P,
                    e1 < P,
            {}
        } else {
            assert(poly_value(cc, x) == values_at_nodes(cc, n)[x - 1]);
        }
    }
    assert forall|p: Seq<nat>|
        p.len() == e.len() && (forall|i: int| 0 <= i < p.len() ==> p[i] < P)
            && #[trigger] values_from_zero(p, n) == e implies interpolated_value(e, x) == poly_value(
        p,
        x,
    ) by {
        assert(values_from_zero(p, n)[0] == poly_value(p, 0));
        assert(values_from_zero(p, n)[1] == poly_value(p, 1));
        assert(values_at_nodes(p, n) =~= e.drop_first()) by {
            assert forall|k: int| 0 <= k < n implies values_at_nodes(p, n)[k] == e.drop_first()[k] by {
                assert(values_from_zero(p, n)[k + 1] == poly_value(p, (k + 1) as nat));
            }
        }
    }
}

/// A sum-check round proof.
///
/// This represents the polynomial sent by the Prover during one of the rounds of the sum-check
/// protocol. The polynomial is in evaluation form and excludes the zero-th coefficient as
/// the Verifier can recover it from the first coefficient and the current reduced claim.
#[derive(Debug, Clone)]
pub struct RoundProof {
    pub poly_evals: Vec<Felt>,
}

impl RoundProof {
    /// Completes the evaluations of the round polynomial by computing the zero-th coefficient
    /// using the round claim.
    pub fn to_evals(&self, claim: Felt) -> (res: Vec<Felt>)
        requires
            self.poly_evals@.len() > 0,
        ensures
            felts(res@) == round_evals(felts(self.poly_evals@), claim@),
    {
        let mut result: Vec<Felt> = Vec::new();

        // s(0) + s(1) = claim
        let c0 = claim.sub(self.poly_evals[0]);

        result.push(c0);
        let mut i: usize = 0;
        while i < self.poly_evals.len()
            invariant
                i <= self.poly_evals@.len(),
                result@.len() == i + 1,
                result@[0] == c0,
                forall|j: int| 1 <= j <= i ==> #[trigger] result@[j] == self.poly_evals@[j - 1],
            decreases self.poly_evals@.len() - i,
        {
            result.push(self.poly_evals[i]);
            i = i + 1;
        }
        proof {
            assert(felts(result@) =~= round_evals(felts(self.poly_evals@), claim@));
        }
        result
    }
}

/// A sum-check proof.
///
/// Composed of the round proofs i.e., the polynomials sent by the Prover at each round as well as
/// the (claimed) openings of the multi-linear oracles at the evaluation point given by the round
/// challenges.
/// Openings is an [Option] as there are situations where we would like to run the sum-check
/// protocol for a certain number of rounds that is less than the number of variables of the
/// multi-linears. This is the case for example when we have a merged polynomial.
#[derive(Debug, Clone)]
pub struct Proof {
    pub openings: Option<Vec<Felt>>,
    pub round_proofs: Vec<RoundProof>,
}

/// Contains the round challenges sent by the Verifier up to some round as well as the current
/// reduced claim.
#[derive(Debug)]
pub struct RoundClaim {
    pub eval_point: Vec<Felt>,
    pub claim: Felt,
}

/// Reduces an old claim to a new claim using the round challenge: the round polynomial,
/// completed with the old claim, evaluated at the challenge, and the challenge appended to the
/// evaluation point.
pub fn reduce_claim(
    domain: &EvaluationDomain,
    current_poly: &RoundProof,
    current_round_claim: RoundClaim,
    round_challenge: Felt,
) -> (res: RoundClaim)
    requires
        current_poly.poly_evals@.len() > 0,
        current_poly.poly_evals@.len() == domain.degree(),
    ensures
        res.eval_point@ == current_round_claim.eval_point@.push(round_challenge),
        res.claim@ == interpolated_value(
            round_evals(felts(current_poly.poly_evals@), current_round_claim.claim@),
            round_challenge@,
        ),
        // an honest round: the round proof holds s(1), ..., s(d) of a polynomial s of degree
        // at most d with s(0) + s(1) = claim, and the new claim is s(r)
        forall|s: Seq<nat>|
            s.len() == domain.degree() + 1 && (forall|i: int| 0 <= i < s.len() ==> s[i] < P)
                && #[trigger] values_at_nodes(s, domain.degree()) == felts(current_poly.poly_evals@)
                && fadd(poly_value(s, 0), poly_value(s, 1)) == current_round_claim.claim@
                ==> res.claim@ == poly_value(s, round_challenge@),
{
    // construct the round polynomial using the current claim
    let poly_evals = current_poly.to_evals(current_round_claim.claim);
    proof {
        assert(felts(poly_evals@).len() == poly_evals@.len());
    }
    // evaluate the round polynomial at the round challenge to obtain the new claim
    let new_claim = domain.evaluate(poly_evals.as_slice(), round_challenge);
    proof {
        assert forall|s: Seq<nat>|
            s.len() == domain.degree() + 1 && (forall|i: int| 0 <= i < s.len() ==> s[i] < P)
                && #[trigger] values_at_nodes(s, domain.degree()) == felts(current_poly.poly_evals@)
                && fadd(poly_value(s, 0), poly_value(s, 1)) == current_round_claim.claim@
                implies new_claim@ == poly_value(s, round_challenge@) by {
            lemma_round_evals_of_a_polynomial(s, current_round_claim.claim@);
            assert(values_from_zero(s, domain.degree()) == felts(poly_evals@));
        }
    }

    // update the evaluation point using the round challenge
    let mut new_partial_eval_point = current_round_claim.eval_point;
    new_partial_eval_point.push(round_challenge);

    RoundClaim { eval_point: new_partial_eval_point, claim: new_claim }
}

/// Represents an opening claim at an evaluation point against a batch of oracles.
///
/// After verifying [Proof], the verifier is left with a final question being whether a number
/// of oracles open to some value at some given point. This question is answered either using
/// further interaction with the Prover or using a polynomial commitment opening proof in
/// the compiled protocol.
#[derive(Clone, Debug)]
pub struct FinalOpeningClaim {
    pub evaluation_point: Vec<Felt>,
    pub openings: Vec<Felt>,
}

/// The completed evaluations of a round polynomial sum to the round claim: `s(0) + s(1)` is
/// the claim.
pub proof fn lemma_round_evals_sum_to_claim(poly_evals: Seq<nat>, claim: nat)
    requires
        poly_evals.len() > 0,
        claim < P,
        poly_evals[0] < P,
    ensures
        fadd(round_evals(poly_evals, claim)[0], round_evals(poly_evals, claim)[1]) == claim,
{
    let p = P as int;
    let e = poly_evals[0] as int;
    let c = claim as int;
    assert(round_evals(poly_evals, claim)[1] == poly_evals[0]);
    lemma_add_mod_noop(c - e, e, p);
    lemma_small_mod(poly_evals[0], P as nat);
    lemma_small_mod(claim, P as nat);
    lemma_mod_twice(c - e, p);
}

/// Evaluating over the domain the values of a polynomial of degree at most `n` at `0, ..., n`
/// gives the polynomial's own value at any point. The points `0, ..., n` lie below `P`.
pub proof fn lemma_interpolated_value_of_polynomial(p: Seq<nat>, x: nat)
    requires
        p.len() >= 1,
        forall|i: int| 0 <= i < p.len() ==> p[i] < P,
        p.len() <= P,
    ensures
        interpolated_value(values_from_zero(p, (p.len() - 1) as nat), x) == poly_value(p, x),
{
    let n = (p.len() - 1) as nat;
    let evals = values_from_zero(p, n);
    if p.len() == 1 {
        let q = p.drop_first();
        assert(q.len() == 0);
        assert(poly_value(q, 0) == 0 && poly_value(q, x) == 0);
        assert(poly_value(p, 0) == p[0] && poly_value(p, x) == p[0]) by {
            lemma_small_mod(p[0], P as nat);
            lemma_small_mod(0, P as nat);
            assert(0nat * 0nat == 0 && 0nat * x == 0) by (nonlinear_arith);
        }
    } else {
        assert(evals.drop_first() =~= values_at_nodes(p, n));
        lemma_to_poly_interpolates(p);
    }
}

/// Evaluating over the domain at one of its points gives back the value given there: the
/// interpolated polynomial takes the values `evals`. The points `0, ..., n` lie below `P`.
pub proof fn lemma_interpolated_value_at_a_point(evals: Seq<nat>, i: nat)
    requires
        i < evals.len(),
        forall|j: int| 0 <= j < evals.len() ==> evals[j] < P,
        evals.len() <= P,
    ensures
        interpolated_value(evals, i) == evals[i as int],
{
    if evals.len() > 1 {
        let e = evals.drop_first();
        let claim = fadd(evals[0], evals[1]);
        let coefs = to_poly_coefficients(e, claim);
        let p = complete_coefficients(coefs, claim);
        lemma_to_poly_takes_the_values(e, claim);
        if i == 0 {
            // p(0) + p(1) = claim = e0 + e1 and p(1) = e1
            assert(coefs.len() == e.len());
            assert forall|j: int| 0 <= j < coefs.len() implies coefs[j] < P by {}
            lemma_claim_is_sum_at_zero_and_one(coefs, claim);
            assert(poly_value(p, 1) == values_at_nodes(p, e.len())[0]);
            let p0 = poly_value(p, 0);
            lemma_poly_value_lt_p(p, 0);
            let (e0, e1) = (evals[0], evals[1]);
            assert(p0 == e0) by (nonlinear_arith)
                requires
                    (p0 + e1) % (P as nat) == (e0 + e1) % (P as nat),
                    p0 < P,
                    e0 < P,
                    e1 < P,
            {}
        } else {
            assert(poly_value(p, i) == values_at_nodes(p, e.len())[i - 1]);
        }
    }
}

/// An honest round: when the round proof holds the values `s(1), ..., s(d)` of a round
/// polynomial `s` of degree at most `d` with `s(0) + s(1) = claim`, the claim that
/// `reduce_claim` computes at the challenge `r` is `s(r)`. The points `0, ..., d` lie below `P`.
pub proof fn lemma_honest_round_reduces_to_its_polynomial(s: Seq<nat>, claim: nat, r: nat)
    requires
        s.len() >= 2,
        forall|i: int| 0 <= i < s.len() ==> s[i] < P,
        s.len() <= P,
        claim == fadd(poly_value(s, 0), poly_value(s, 1)),
    ensures
        interpolated_value(round_evals(values_at_nodes(s, (s.len() - 1) as nat), claim), r)
            == poly_value(s, r),
{
    lemma_round_evals_of_a_polynomial(s, claim);
    lemma_interpolated_value_of_polynomial(s, r);
}

/// The values `s(1), ..., s(d)`, completed with a claim `s(0) + s(1)`, are the values of `s` at
/// `0, ..., d`.
proof fn lemma_round_evals_of_a_polynomial(s: Seq<nat>, claim: nat)
    requires
        s.len() >= 2,
        claim == fadd(poly_value(s, 0), poly_value(s, 1)),
    ensures
        round_evals(values_at_nodes(s, (s.len() - 1) as nat), claim) == values_from_zero(
            s,
            (s.len() - 1) as nat,
        ),
{
    let n = (s.len() - 1) as nat;
    let v = values_at_nodes(s, n);
    let s0 = poly_value(s, 0);
    let s1 = poly_value(s, 1);
    lemma_poly_value_lt_p(s, 0);
    lemma_poly_value_lt_p(s, 1);
    assert(v[0] == s1);
    assert(fsub(claim, s1) == s0) by {
        let p = P as int;
        lemma_add_mod_noop(s0 as int, s1 as int, p);
        lemma_sub_mod_noop(s0 as int + s1 as int, s1 as int, p);
        lemma_small_mod(s0, P as nat);
        lemma_small_mod(s1, P as nat);
        lemma_mod_twice(s0 as int + s1 as int, p);
    }
    assert(round_evals(v, claim) =~= values_from_zero(s, n));
}

} // verus!
