use miden_vm::field::Felt;
use miden_vm::univariate::{UnivariatePolyCoef, UnivariatePolyEvals};

fn to_felt(x: miden_crypto::Felt) -> Felt {
    Felt::new(x.as_int())
}

fn to_base(x: Felt) -> miden_crypto::Felt {
    miden_crypto::Felt::new(x.as_int())
}

fn felts(values: &[u64]) -> Vec<Felt> {
    values.iter().map(|v| Felt::new(*v)).collect()
}

#[test]
fn test_poly_partial() {
    let degree = 1000;
    let mut points: Vec<miden_crypto::Felt> = vec![miden_crypto::Felt::new(0); degree];
    points
        .iter_mut()
        .enumerate()
        .for_each(|(i, node)| *node = miden_crypto::Felt::from(i as u32));

    let p: Vec<miden_crypto::Felt> = winter_rand_utils::rand_vector(degree);
    let evals = winter_math::polynom::eval_many(&p, &points);

    let mut partial_evals = evals.clone();
    partial_evals.remove(0);

    let partial_poly = UnivariatePolyEvals {
        partial_evaluations: partial_evals.iter().map(|e| to_felt(*e)).collect(),
    };
    let claim = to_felt(evals[0] + evals[1]);
    let poly_coeff = partial_poly.to_poly(claim);

    let r: Vec<miden_crypto::Felt> = winter_rand_utils::rand_vector(1);

    assert_eq!(
        to_felt(winter_math::polynom::eval(&p, r[0])),
        poly_coeff.evaluate_using_claim(&claim, &to_felt(r[0]))
    )
}

// p(x) = 5 + 3x + 2x^2: p(0) = 5, p(1) = 10, p(2) = 19, p(3) = 32
#[test]
fn to_poly_recovers_coefficients_of_a_quadratic() {
    let evals = UnivariatePolyEvals { partial_evaluations: felts(&[10, 19]) };
    let claim = Felt::new(15); // p(0) + p(1)
    let coefs = evals.to_poly(claim);
    // the linear coefficient is left out
    assert_eq!(coefs.coefficients, felts(&[5, 2]));
}

#[test]
fn to_poly_of_a_cubic_evaluates_back() {
    // p(x) = 7 + x + 4x^2 + 9x^3
    let p = |x: u64| 7 + x + 4 * x * x + 9 * x * x * x;
    let evals = UnivariatePolyEvals { partial_evaluations: felts(&[p(1), p(2), p(3)]) };
    let claim = Felt::new(p(0) + p(1));
    let coefs = evals.to_poly(claim);
    assert_eq!(coefs.coefficients, felts(&[7, 4, 9]));
    for x in [0u64, 1, 2, 5, 11] {
        assert_eq!(coefs.evaluate_using_claim(&claim, &Felt::new(x)), Felt::new(p(x)));
    }
}

#[test]
fn evaluate_using_claim_recovers_linear_coefficient() {
    // coefficients [c0, c2] = [5, 2] with claim 15: c1 = 15 - 7 - 5 = 3
    let coefs = UnivariatePolyCoef { coefficients: felts(&[5, 2]) };
    let claim = Felt::new(15);
    // p(4) = 5 + 12 + 32 = 49
    assert_eq!(coefs.evaluate_using_claim(&claim, &Felt::new(4)), Felt::new(49));
}

#[test]
fn evaluate_using_claim_sums_to_claim_at_zero_and_one() {
    let coefs = UnivariatePolyCoef { coefficients: felts(&[123, 45, 6789, 10]) };
    let claim = Felt::new(987654321);
    let at_zero = coefs.evaluate_using_claim(&claim, &Felt::zero());
    let at_one = coefs.evaluate_using_claim(&claim, &Felt::one());
    assert_eq!(at_zero, Felt::new(123));
    assert_eq!(at_zero.add(at_one), claim);
}

#[test]
fn evaluate_using_claim_wraps_modulo_p() {
    // with a claim of zero the linear coefficient is negative: c1 = 0 - (1 + 1) - 1 = -3
    let coefs = UnivariatePolyCoef { coefficients: felts(&[1, 1]) };
    let claim = Felt::zero();
    // p(2) = 1 - 6 + 4 = -1
    let expected = to_felt(-miden_crypto::Felt::new(1));
    assert_eq!(coefs.evaluate_using_claim(&claim, &Felt::new(2)), expected);
    assert_eq!(to_base(expected).as_int(), miden_vm::field::P - 1);
}

#[test]
fn to_poly_takes_the_given_values_at_the_nodes() {
    let values = felts(&[17, 3, 99, 1234, 5]);
    let claim = Felt::new(40);
    let coefs = UnivariatePolyEvals { partial_evaluations: values.clone() }.to_poly(claim);
    for (k, v) in values.iter().enumerate() {
        let node = Felt::new(k as u64 + 1);
        assert_eq!(coefs.evaluate_using_claim(&claim, &node), *v);
    }
    // p(0) + p(1) is the claim
    let p0 = coefs.evaluate_using_claim(&claim, &Felt::new(0));
    assert_eq!(p0.add(values[0]), claim);
}
