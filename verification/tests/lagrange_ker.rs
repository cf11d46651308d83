use miden_vm::field::Felt;
use miden_vm::lagrange_ker::{compute_lagrange_basis_evals_at, inner_product, EqFunction};
use miden_vm::multilinear::{MultiLinearError, MultiLinearPoly};

fn felts(values: &[u64]) -> Vec<Felt> {
    values.iter().map(|v| Felt::new(*v)).collect()
}

fn one_minus(x: Felt) -> Felt {
    Felt::one().sub(x)
}

#[test]
fn lagrange_kernel_of_two_variables() {
    let r0 = Felt::new(3);
    let r1 = Felt::new(10);
    let evals = compute_lagrange_basis_evals_at(&[r0, r1]);
    // index y has bit 0 for r0 and bit 1 for r1
    assert_eq!(
        evals,
        vec![
            one_minus(r0).mul(one_minus(r1)),
            r0.mul(one_minus(r1)),
            one_minus(r0).mul(r1),
            r0.mul(r1),
        ]
    );
    // (1 - 3) * (1 - 10) = 18, 3 * (1 - 10) = -27, (1 - 3) * 10 = -20, 30
    assert_eq!(evals[0], Felt::new(18));
    assert_eq!(evals[1], Felt::new(27).neg());
    assert_eq!(evals[2], Felt::new(20).neg());
    assert_eq!(evals[3], Felt::new(30));
}

#[test]
fn lagrange_kernel_of_no_variable_is_one() {
    assert_eq!(compute_lagrange_basis_evals_at(&[]), vec![Felt::one()]);
}

#[test]
fn lagrange_kernel_sums_to_one() {
    let r = felts(&[5, 17, 123456, 99, 8]);
    let evals = compute_lagrange_basis_evals_at(&r);
    assert_eq!(evals.len(), 32);
    let sum = evals.iter().fold(Felt::zero(), |acc, e| acc.add(*e));
    assert_eq!(sum, Felt::one());
}

#[test]
fn eq_function_evaluates_the_product() {
    let eq = EqFunction::new(felts(&[2, 3]));
    // (2 * 5 + (1 - 2) * (1 - 5)) * (3 * 7 + (1 - 3) * (1 - 7)) = (10 + 4) * (21 + 12) = 462
    assert_eq!(eq.evaluate(&felts(&[5, 7])), Felt::new(462));
}

#[test]
fn eq_function_on_the_hypercube_matches_its_evaluations() {
    let r = felts(&[11, 22, 33]);
    let eq = EqFunction::new(r.clone());
    let evals = eq.evaluations();
    for y in 0..8u64 {
        let point: Vec<Felt> = (0..3).map(|i| Felt::new((y >> i) & 1)).collect();
        assert_eq!(eq.evaluate(&point), evals[y as usize]);
    }
}

#[test]
fn eq_function_at_a_boolean_point_is_an_indicator() {
    let eq = EqFunction::new(felts(&[1, 0, 1]));
    let evals = eq.evaluations();
    for y in 0..8usize {
        let expected = if y == 5 { Felt::one() } else { Felt::zero() };
        assert_eq!(evals[y], expected);
    }
}

#[test]
fn ml_at_wraps_the_lagrange_kernel() {
    let point = felts(&[4, 9]);
    let ml = EqFunction::ml_at(point.clone());
    assert_eq!(ml.num_variables(), 2);
    assert_eq!(ml.evaluations().to_vec(), compute_lagrange_basis_evals_at(&point));
}

#[test]
fn inner_product_of_two_vectors() {
    assert_eq!(inner_product(&felts(&[1, 2, 3]), &felts(&[4, 5, 6])), Felt::new(32));
    assert_eq!(inner_product(&[], &[]), Felt::zero());
}

#[test]
fn multilinear_extension_agrees_on_the_hypercube() {
    let f = felts(&[7, 1, 8, 2]);
    let poly = MultiLinearPoly::from_evaluations(f.clone()).unwrap();
    for y in 0..4u64 {
        let point: Vec<Felt> = (0..2).map(|i| Felt::new((y >> i) & 1)).collect();
        let kernel = compute_lagrange_basis_evals_at(&point);
        assert_eq!(poly.evaluate_with_lagrange_kernel(&kernel), f[y as usize]);
    }
}

#[test]
fn from_evaluations_requires_a_power_of_two() {
    assert_eq!(
        MultiLinearPoly::from_evaluations(felts(&[1, 2, 3])).unwrap_err(),
        MultiLinearError::EvaluationsNotPowerOfTwo
    );
    assert_eq!(
        MultiLinearPoly::from_evaluations(vec![]).unwrap_err(),
        MultiLinearError::EvaluationsNotPowerOfTwo
    );
    let poly = MultiLinearPoly::from_evaluations(felts(&[1, 2, 3, 4, 5, 6, 7, 8])).unwrap();
    assert_eq!(poly.num_variables(), 3);
    assert_eq!(poly.num_evaluations(), 8);
    assert_eq!(MultiLinearPoly::from_evaluations(felts(&[9])).unwrap().num_variables(), 0);
}

#[test]
fn project_least_significant_variable_splits_even_and_odd() {
    let poly = MultiLinearPoly::from_evaluations(felts(&[1, 2, 3, 4, 5, 6, 7, 8])).unwrap();
    let (left, right) = poly.project_least_significant_variable();
    assert_eq!(left.evaluations().to_vec(), felts(&[1, 3, 5, 7]));
    assert_eq!(right.evaluations().to_vec(), felts(&[2, 4, 6, 8]));
    assert_eq!(left.num_variables(), 2);
    assert_eq!(right.num_variables(), 2);
}

#[test]
fn eq_function_is_symmetric() {
    let a = felts(&[3, 7, 11]);
    let b = felts(&[5, 2, 9]);
    assert_eq!(EqFunction::new(a.clone()).evaluate(&b), EqFunction::new(b).evaluate(&a));
}

#[test]
fn inner_product_is_symmetric_and_additive() {
    let a = felts(&[1, 2, 3]);
    let b = felts(&[4, 5, 6]);
    let c = felts(&[7, 8, 9]);
    assert_eq!(inner_product(&a, &b), inner_product(&b, &a));
    let b_plus_c: Vec<Felt> = b.iter().zip(c.iter()).map(|(x, y)| x.add(*y)).collect();
    assert_eq!(inner_product(&a, &b_plus_c), inner_product(&a, &b).add(inner_product(&a, &c)));
}

#[test]
fn appending_a_coordinate_tensors_the_kernel() {
    let r = felts(&[3, 10]);
    let x = Felt::new(6);
    let old = compute_lagrange_basis_evals_at(&r);
    let new = compute_lagrange_basis_evals_at(&[r[0], r[1], x]);
    let expected: Vec<Felt> = old
        .iter()
        .map(|e| e.mul(one_minus(x)))
        .chain(old.iter().map(|e| e.mul(x)))
        .collect();
    assert_eq!(new, expected);
}

#[test]
fn multilinear_extension_is_affine_in_each_coordinate() {
    let f = felts(&[4, 9, 16, 25]);
    let ext = |r: &[Felt]| inner_product(&f, &compute_lagrange_basis_evals_at(r));
    let x = Felt::new(123);
    let y = Felt::new(77);
    let at_x = ext(&[y, x]);
    let at_0 = ext(&[y, Felt::zero()]);
    let at_1 = ext(&[y, Felt::one()]);
    assert_eq!(at_x, one_minus(x).mul(at_0).add(x.mul(at_1)));
}
