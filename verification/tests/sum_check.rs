use miden_vm::field::Felt;
use miden_vm::sum_check::{
    reduce_claim, EvaluationDomain, FinalOpeningClaim, Proof, RoundClaim, RoundProof,
};

fn to_felt(x: miden_crypto::Felt) -> Felt {
    Felt::new(x.as_int())
}

fn eval(p: &[miden_crypto::Felt], x: miden_crypto::Felt) -> miden_crypto::Felt {
    p.iter().rev().fold(miden_crypto::Felt::new(0), |acc, &coeff| acc * x + coeff)
}

fn felts(values: &[u64]) -> Vec<Felt> {
    values.iter().map(|v| Felt::new(*v)).collect()
}

#[test]
fn to_evals_prepends_the_evaluation_at_zero() {
    let proof = RoundProof { poly_evals: felts(&[4, 9, 16]) };
    assert_eq!(proof.to_evals(Felt::new(10)), felts(&[6, 4, 9, 16]));
}

#[test]
fn to_evals_sums_to_the_claim() {
    let proof = RoundProof { poly_evals: felts(&[100, 2]) };
    let claim = Felt::new(7);
    let evals = proof.to_evals(claim);
    assert_eq!(evals[0].add(evals[1]), claim);
    assert_eq!(evals[0], Felt::new(7).sub(Felt::new(100)));
}

#[test]
fn proofs_and_claims_hold_their_data() {
    let proof = Proof {
        openings: Some(felts(&[1])),
        round_proofs: vec![RoundProof { poly_evals: felts(&[2, 3]) }],
    };
    assert_eq!(proof.round_proofs[0].poly_evals, felts(&[2, 3]));
    let claim = RoundClaim { eval_point: felts(&[5]), claim: Felt::new(6) };
    assert_eq!(claim.claim, Felt::new(6));
    let opening = FinalOpeningClaim { evaluation_point: felts(&[5]), openings: felts(&[8, 9]) };
    assert_eq!(opening.openings.len(), 2);
}

#[test]
fn test_evaluation_domain() {
    let max_degree = 5;
    let eval_domain = EvaluationDomain::new(max_degree);

    let r: miden_crypto::Felt = winter_rand_utils::rand_value();
    let coefficients: [miden_crypto::Felt; 6] = winter_rand_utils::rand_array();

    let evaluations: Vec<miden_crypto::Felt> = (0..=max_degree)
        .into_iter()
        .map(|x| eval(&coefficients, miden_crypto::Felt::from(x as u8)))
        .collect();

    assert_eq!(coefficients.len(), evaluations.len());

    let evaluations: Vec<Felt> = evaluations.iter().map(|e| to_felt(*e)).collect();
    let result = eval_domain.evaluate(&evaluations, to_felt(r));
    let expected = to_felt(eval(&coefficients, r));

    assert_eq!(result, expected);
}

// p(x) = 3 + 2x + x^2 takes the values 3, 6, 11 at 0, 1, 2, and p(10) = 123
#[test]
fn evaluation_domain_evaluates_a_quadratic() {
    let domain = EvaluationDomain::new(2);
    assert_eq!(domain.evaluate(&felts(&[3, 6, 11]), Felt::new(10)), Felt::new(123));
    // at a point of the domain, the given value comes back
    assert_eq!(domain.evaluate(&felts(&[3, 6, 11]), Felt::new(2)), Felt::new(11));
}

#[test]
fn evaluation_domain_of_degree_zero_is_constant() {
    let domain = EvaluationDomain::new(0);
    assert_eq!(domain.evaluate(&felts(&[42]), Felt::new(7)), Felt::new(42));
}

// s(x) = 1 + x + x^2: s(0) + s(1) = 4, s(1) = 3, s(2) = 7, s(5) = 31
#[test]
fn reduce_claim_evaluates_the_round_polynomial_at_the_challenge() {
    let domain = EvaluationDomain::new(2);
    let round_proof = RoundProof { poly_evals: felts(&[3, 7]) };
    let claim = RoundClaim { eval_point: felts(&[9]), claim: Felt::new(4) };
    let reduced = reduce_claim(&domain, &round_proof, claim, Felt::new(5));
    assert_eq!(reduced.claim, Felt::new(31));
    assert_eq!(reduced.eval_point, felts(&[9, 5]));
}
