use miden_vm::field::{batch_inversion, poly_eval, Felt, P};

#[test]
fn new_reduces_modulo_p() {
    assert_eq!(Felt::new(P).as_int(), 0);
    assert_eq!(Felt::new(P + 5).as_int(), 5);
    assert_eq!(Felt::new(u64::MAX).as_int(), u64::MAX - P);
    assert_eq!(Felt::from_u32(7).as_int(), 7);
    assert_eq!(Felt::new(P + 3), Felt::new(3));
    assert_ne!(Felt::new(4), Felt::new(3));
}

#[test]
fn add_wraps_around_the_modulus() {
    assert_eq!(Felt::new(P - 1).add(Felt::new(2)).as_int(), 1);
    assert_eq!(Felt::new(20).add(Felt::new(22)).as_int(), 42);
}

#[test]
fn sub_wraps_around_the_modulus() {
    assert_eq!(Felt::zero().sub(Felt::one()).as_int(), P - 1);
    assert_eq!(Felt::new(50).sub(Felt::new(8)).as_int(), 42);
}

#[test]
fn mul_reduces_the_product() {
    // (-1) * (-1) = 1
    assert_eq!(Felt::new(P - 1).mul(Felt::new(P - 1)).as_int(), 1);
    // 2^32 * 2^32 = 2^64 = 2^32 - 1 (mod P)
    let two_32 = Felt::new(1u64 << 32);
    assert_eq!(two_32.mul(two_32).as_int(), (1u64 << 32) - 1);
    assert_eq!(Felt::new(6).mul(Felt::new(7)).as_int(), 42);
}

#[test]
fn neg_is_additive_inverse() {
    assert_eq!(Felt::new(1).neg().as_int(), P - 1);
    assert_eq!(Felt::zero().neg().as_int(), 0);
    assert_eq!(Felt::new(12345).neg().add(Felt::new(12345)), Felt::zero());
}

#[test]
fn batch_inversion_inverts_non_zero_values_and_keeps_zero() {
    let values = vec![Felt::new(1), Felt::new(2), Felt::zero(), Felt::new(P - 1), Felt::new(123456789)];
    let inverses = batch_inversion(&values);
    assert_eq!(inverses.len(), values.len());
    assert_eq!(inverses[0], Felt::one());
    assert_eq!(inverses[1].as_int(), (P + 1) / 2);
    assert_eq!(inverses[2], Felt::zero());
    assert_eq!(inverses[3], Felt::new(P - 1));
    assert_eq!(values[4].mul(inverses[4]), Felt::one());
}

#[test]
fn poly_eval_uses_lowest_degree_first() {
    // f(x) = 3 * x^2 + 2 * x + 1 at 4 is 57
    let p = vec![Felt::new(1), Felt::new(2), Felt::new(3)];
    assert_eq!(poly_eval(&p, Felt::new(4)), Felt::new(57));
    assert_eq!(poly_eval(&[], Felt::new(4)), Felt::zero());
}
