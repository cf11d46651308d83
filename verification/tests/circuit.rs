use miden_vm::circuit::{
    compute_input_layer_wires_at_main_trace_query, CircuitWire, GkrComposition,
    GkrCompositionMerge, NUM_WIRES_PER_TRACE_ROW,
};
use miden_vm::field::Felt;
use miden_vm::lagrange_ker::{compute_lagrange_basis_evals_at, inner_product};
use miden_vm::trace_layout::TRACE_WIDTH;

fn f(v: u64) -> Felt {
    Felt::new(v)
}

fn query() -> Vec<Felt> {
    (0..=TRACE_WIDTH as u64).map(|k| f(k + 2)).collect()
}

#[test]
fn circuit_wires_add_as_fractions() {
    let a = CircuitWire::new(f(1), f(2));
    let b = CircuitWire::new(f(1), f(3));
    let c = a.add(b);
    assert_eq!(c.numerator(), f(5));
    assert_eq!(c.denominator(), f(6));
}

#[test]
fn gkr_composition_combines_two_fractions() {
    let composition = GkrComposition::new(f(10));
    assert_eq!(composition.max_degree(), 3);
    // 2 * ((3 * 6 + 4 * 5) + 5 * 6 * 10) = 2 * (38 + 300)
    assert_eq!(composition.evaluate(&[f(3), f(4), f(5), f(6), f(2)]), f(676));
}

fn expected_fractions(q: &[Felt], alpha: Felt) -> (Vec<Felt>, Vec<Felt>) {
    let one = Felt::one();
    let f_m = q[53].mul(q[54]).mul(one.sub(q[55]));
    let f_rc = one.sub(q[13]).mul(one.sub(q[14])).mul(q[15]);
    let nums = vec![q[51], f_m, f_m, f_rc, f_rc, f_rc, f_rc, Felt::zero()];
    let dens = vec![
        alpha.sub(q[52]),
        alpha.sub(q[65]).neg(),
        alpha.sub(q[66]).neg(),
        alpha.sub(q[18]).neg(),
        alpha.sub(q[19]).neg(),
        alpha.sub(q[20]).neg(),
        alpha.sub(q[21]).neg(),
        one,
    ];
    (nums, dens)
}

#[test]
fn input_layer_wires_of_a_trace_row() {
    let q = query();
    let alpha = f(1000);
    let wires = compute_input_layer_wires_at_main_trace_query(&q, &[alpha]);
    assert_eq!(wires.len(), NUM_WIRES_PER_TRACE_ROW);
    let (nums, dens) = expected_fractions(&q, alpha);
    // the range checker multiplicity q[51] = 53; f_m = 55 * 56 * (1 - 57)
    assert_eq!(nums[0], f(53));
    assert_eq!(nums[1], f(55 * 56).mul(f(56).neg()));
    assert_eq!(dens[0], f(1000 - 54));
    assert_eq!(dens[1], f(1000 - 67).neg());
    for k in 0..NUM_WIRES_PER_TRACE_ROW {
        assert_eq!(wires[k].numerator(), nums[k]);
        assert_eq!(wires[k].denominator(), dens[k]);
    }
}

#[test]
fn merge_composition_evaluates_the_input_layer() {
    let merge = vec![f(3), f(8)];
    let composition = GkrCompositionMerge::new(f(7), merge.clone(), vec![f(1000)]);
    assert_eq!(composition.max_degree(), 5);
    let kernel = compute_lagrange_basis_evals_at(&merge);
    assert_eq!(composition.tensored_merge_randomness, kernel);

    let q = query();
    let (nums, dens) = expected_fractions(&q, f(1000));
    let evens = |v: &Vec<Felt>| vec![v[0], v[2], v[4], v[6]];
    let odds = |v: &Vec<Felt>| vec![v[1], v[3], v[5], v[7]];
    let ln = inner_product(&evens(&nums), &kernel);
    let rn = inner_product(&odds(&nums), &kernel);
    let ld = inner_product(&evens(&dens), &kernel);
    let rd = inner_product(&odds(&dens), &kernel);
    let eq = q[TRACE_WIDTH];
    let expected = eq.mul(ln.mul(rd).add(rn.mul(ld)).add(ld.mul(rd).mul(f(7))));
    assert_eq!(composition.evaluate(&q), expected);
}

#[test]
fn circuit_wire_addition_is_commutative_and_associative() {
    let a = CircuitWire::new(f(3), f(7));
    let b = CircuitWire::new(f(5), f(11));
    let c = CircuitWire::new(f(2), f(13));
    let ab = a.add(b);
    let ba = b.add(a);
    assert_eq!((ab.numerator(), ab.denominator()), (ba.numerator(), ba.denominator()));
    let left = a.add(b).add(c);
    let right = a.add(b.add(c));
    assert_eq!((left.numerator(), left.denominator()), (right.numerator(), right.denominator()));
}

/// The `n`-th finite difference of the values `v[0], ..., v[n]`, which is zero when they are
/// the values at `0, ..., n` of a polynomial of degree below `n`.
fn finite_difference(v: &[Felt]) -> Felt {
    let mut d: Vec<Felt> = v.to_vec();
    while d.len() > 1 {
        d = d.windows(2).map(|w| w[1].sub(w[0])).collect();
    }
    d[0]
}

fn along_line(q: &[Felt], dir: &[Felt], x: u64) -> Vec<Felt> {
    q.iter().zip(dir.iter()).map(|(a, b)| a.add(f(x).mul(*b))).collect()
}

#[test]
fn gkr_composition_is_cubic_along_a_line() {
    let composition = GkrComposition::new(f(10));
    let q = vec![f(3), f(4), f(5), f(6), f(2)];
    let dir = vec![f(7), f(1), f(9), f(2), f(5)];
    let values: Vec<Felt> =
        (0..5).map(|x| composition.evaluate(&along_line(&q, &dir, x))).collect();
    assert_eq!(finite_difference(&values), Felt::zero());
    // but not of degree two
    assert_ne!(finite_difference(&values[0..4]), Felt::zero());
}

#[test]
fn merge_composition_has_degree_five_along_a_line() {
    let composition = GkrCompositionMerge::new(f(7), vec![f(3), f(8)], vec![f(1000)]);
    let q = query();
    let dir: Vec<Felt> = (0..q.len() as u64).map(|k| f(3 * k + 1)).collect();
    let values: Vec<Felt> =
        (0..7).map(|x| composition.evaluate(&along_line(&q, &dir, x))).collect();
    assert_eq!(finite_difference(&values), Felt::zero());
}
