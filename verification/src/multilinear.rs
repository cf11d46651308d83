//! Multi-linear polynomials given by their evaluations over the Boolean hypercube.

use vstd::prelude::*;
use vstd::arithmetic::power2::*;
use crate::field::{felts, lemma_felt_lt_p, Felt};
use crate::lagrange_ker::{inner_product, inner_product_spec};

verus! {

broadcast use lemma_felt_lt_p;

/// Errors of the multi-linear polynomial constructors.
#[derive(Debug, Clone, Copy, PartialEq, Eq, Structural)]
pub enum MultiLinearError {
    /// The number of evaluations is not a power of two.
    EvaluationsNotPowerOfTwo,
}

/// Whether `n` is a power of two.
pub open spec fn is_power_of_two(n: nat) -> bool {
    exists|k: nat| pow2(k) == n
}

/// A multi-linear polynomial in `num_variables` variables, given by its `2^num_variables`
/// evaluations over the Boolean hypercube (indexed little-endian).
#[derive(Clone, Debug)]
pub struct MultiLinearPoly {
    num_variables: usize,
    evaluations: Vec<Felt>,
}

impl View for MultiLinearPoly {
    type V = Seq<nat>;

    /// The evaluations over the Boolean hypercube.
    closed spec fn view(&self) -> Seq<nat> {
        felts(self.evaluations@)
    }
}

/// Returns `Some(k)` with `2^k == n` when `n` is a power of two, and `None` otherwise.
fn log2_of_power_of_two(n: usize) -> (res: Option<usize>)
    ensures
        res matches Some(k) ==> pow2(k as nat) == n,
        res is None <==> !is_power_of_two(n as nat),
{
    if n == 0 {
        proof {
            assert forall|k: nat| pow2(k) != 0 by {
                lemma_pow2_pos(k);
            }
        }
        return None;
    }
    let mut x: usize = n;
    let mut k: usize = 0;
    proof {
        lemma2_to64();
    }
    while x % 2 == 0
        invariant
            x > 0,
            k < usize::BITS,
            n == x * pow2(k as nat),
        decreases x,
    {
        proof {
            lemma_pow2_unfold((k + 1) as nat);
            lemma_pow2_pos(k as nat);
            assert(x * pow2(k as nat) == (x / 2) * pow2((k + 1) as nat)) by (nonlinear_arith)
                requires
                    x % 2 == 0,
                    pow2((k + 1) as nat) == 2 * pow2(k as nat),
            ;
            assert(x * pow2(k as nat) >= 2 * pow2(k as nat)) by (nonlinear_arith)
                requires
                    x % 2 == 0,
                    x > 0,
                    pow2(k as nat) > 0,
            ;
            if k + 1 >= usize::BITS {
                assert(pow2(usize::BITS as nat) == usize::MAX as nat + 1) by {
                    lemma2_to64();
                    lemma2_to64_rest();
                }
                if k + 1 > usize::BITS {
                    vstd::arithmetic::power2::lemma_pow2_strictly_increases(usize::BITS as nat, (k + 1) as nat);
                }
                assert(false);
            }
        }
        x = x / 2;
        k = k + 1;
    }
    if x == 1 {
        Some(k)
    } else {
        proof {
            assert forall|j: nat| pow2(j) != n by {
                if pow2(j) == n {
                    lemma_pow2_pos(k as nat);
                    if j < k {
                        lemma_pow2_strictly_increases(j, k as nat);
                        assert(x * pow2(k as nat) >= pow2(k as nat)) by (nonlinear_arith)
                            requires
                                x > 0,
                                pow2(k as nat) > 0,
                        ;
                    } else {
                        lemma_pow2_adds((j - k) as nat, k as nat);
                        assert(x == pow2((j - k) as nat)) by (nonlinear_arith)
                            requires
                                x * pow2(k as nat) == pow2((j - k) as nat) * pow2(k as nat),
                                pow2(k as nat) > 0,
                        ;
                        if j - k == 0 {
                            lemma2_to64();
                        } else {
                            lemma_pow2_unfold((j - k) as nat);
                        }
                    }
                }
            }
        }
        None
    }
}

impl MultiLinearPoly {
    /// Constructs the polynomial from its evaluations over the Boolean hypercube; the number
    /// of evaluations must be a power of two.
    pub fn from_evaluations(evaluations: Vec<Felt>) -> (res: Result<Self, MultiLinearError>)
        ensures
            res is Ok <==> is_power_of_two(evaluations@.len() as nat),
            res matches Ok(poly) ==> poly@ == felts(evaluations@) && poly.well_formed() && pow2(
                poly.num_variables() as nat,
            ) == evaluations@.len(),
            res matches Err(e) ==> e == MultiLinearError::EvaluationsNotPowerOfTwo,
    {
        match log2_of_power_of_two(evaluations.len()) {
            Some(num_variables) => Ok(MultiLinearPoly { num_variables, evaluations }),
            None => Err(MultiLinearError::EvaluationsNotPowerOfTwo),
        }
    }

    /// The number of variables.
    pub closed spec fn num_variables_spec(&self) -> usize {
        self.num_variables
    }

    /// Whether the number of evaluations is `2^num_variables`.
    pub closed spec fn well_formed(&self) -> bool {
        pow2(self.num_variables as nat) == self.evaluations@.len()
    }

    /// Returns the number of variables.
    #[verifier::when_used_as_spec(num_variables_spec)]
    pub fn num_variables(&self) -> (res: usize)
        ensures
            res == self.num_variables_spec(),
    {
        self.num_variables
    }

    /// Returns the evaluations over the Boolean hypercube.
    pub fn evaluations(&self) -> (res: &[Felt])
        ensures
            felts(res@) == self@,
    {
        self.evaluations.as_slice()
    }

    /// Returns the number of evaluations.
    pub fn num_evaluations(&self) -> (res: usize)
        ensures
            res == self@.len(),
    {
        self.evaluations.len()
    }

    /// Evaluates the polynomial at the point whose Lagrange kernel is `lagrange_kernel`, as
    /// the inner product of the evaluations with the kernel.
    pub fn evaluate_with_lagrange_kernel(&self, lagrange_kernel: &[Felt]) -> (res: Felt)
        requires
            self@.len() == lagrange_kernel@.len(),
        ensures
            res@ == inner_product_spec(self@, felts(lagrange_kernel@)),
    {
        inner_product(self.evaluations.as_slice(), lagrange_kernel)
    }

    /// Splits the polynomial along its least significant variable: the first result holds the
    /// evaluations at even indices (that variable set to 0), the second those at odd indices.
    pub fn project_least_significant_variable(&self) -> (res: (Self, Self))
        requires
            self.num_variables() > 0,
            self.well_formed(),
        ensures
            res.0.num_variables() == self.num_variables() - 1,
            res.1.num_variables() == self.num_variables() - 1,
            res.0@ == Seq::new(self@.len() / 2, |i: int| self@[2 * i]),
            res.1@ == Seq::new(self@.len() / 2, |i: int| self@[2 * i + 1]),
            res.0.well_formed(),
            res.1.well_formed(),
    {
        let len = self.evaluations.len();
        let half = len / 2;
        proof {
            lemma_pow2_unfold(self.num_variables as nat);
        }
        let mut p0: Vec<Felt> = Vec::new();
        let mut p1: Vec<Felt> = Vec::new();
        let mut i: usize = 0;
        while i < half
            invariant
                half == self.evaluations@.len() / 2,
                2 * half <= usize::MAX,
                self.evaluations@.len() == 2 * half,
                i <= half,
                p0@.len() == i,
                p1@.len() == i,
                forall|j: int| 0 <= j < i ==> #[trigger] p0@[j] == self.evaluations@[2 * j],
                forall|j: int| 0 <= j < i ==> #[trigger] p1@[j] == self.evaluations@[2 * j + 1],
            decreases half - i,
        {
            assert(2 * i + 1 < self.evaluations@.len());
            p0.push(self.evaluations[2 * i]);
            p1.push(self.evaluations[2 * i + 1]);
            i = i + 1;
        }
        let num_variables = self.num_variables - 1;
        let left = MultiLinearPoly { num_variables, evaluations: p0 };
        let right = MultiLinearPoly { num_variables, evaluations: p1 };
        proof {
            assert(left@ =~= Seq::new(self@.len() / 2, |i: int| self@[2 * i]));
            assert(right@ =~= Seq::new(self@.len() / 2, |i: int| self@[2 * i + 1]));
        }
        (left, right)
    }
}

} // verus!
