//! The 64-bit prime field with modulus `2^64 - 2^32 + 1` that the Miden VM computes over.
//!
//! A [`Felt`] is viewed as its canonical value, an integer in `[0, P)`. The arithmetic is
//! done by the field element of miden-crypto (winter-math's base element); the spec functions `fadd`, `fsub`, `fmul` and
//! `fneg` state what each operation computes.

use vstd::prelude::*;
use vstd::arithmetic::div_mod::*;
use vstd::arithmetic::mul::*;
use miden_crypto::Felt as BaseElement;

verus! {

/// The field modulus `2^64 - 2^32 + 1`.
pub const P: u64 = 0xFFFF_FFFF_0000_0001u64;

/// Field addition of two canonical values.
pub open spec fn fadd(a: nat, b: nat) -> nat {
    (a + b) % (P as nat)
}

/// Field subtraction of two canonical values.
pub open spec fn fsub(a: nat, b: nat) -> nat {
    ((a - b) % (P as int)) as nat
}

/// Field multiplication of two canonical values.
pub open spec fn fmul(a: nat, b: nat) -> nat {
    (a * b) % (P as nat)
}

/// Field negation of a canonical value.
pub open spec fn fneg(a: nat) -> nat {
    fsub(0, a)
}

/// The field sum of a sequence of canonical values, added up from the first to the last.
pub open spec fn fsum(s: Seq<nat>) -> nat
    decreases s.len(),
{
    if s.len() == 0 {
        0
    } else {
        fadd(fsum(s.drop_last()), s.last())
    }
}

/// The field product of a sequence of values, multiplied from the first to the last.
pub open spec fn fprod(s: Seq<nat>) -> nat
    decreases s.len(),
{
    if s.len() == 0 {
        1
    } else {
        fmul(fprod(s.drop_last()), s.last())
    }
}

// TRUSTED CALLS INTO WINTER-MATH
// ================================================================================================

/// Calls `BaseElement::new`, which reduces any `u64` modulo the field modulus, and reads the
/// canonical value back with `as_int`. Claimed: the result is `value mod P`.
#[verifier::external_body]
fn base_new(value: u64) -> (r: u64)
    ensures
        r as nat == value as nat % (P as nat),
{
    BaseElement::new(value).as_int()
}

/// Calls `<BaseElement as Add>::add` on the two elements `BaseElement::new(a)` and
/// `BaseElement::new(b)`. Claimed: the canonical result is `(a mod P + b mod P) mod P`.
#[verifier::external_body]
fn base_add(a: u64, b: u64) -> (r: u64)
    ensures
        r as nat == fadd(a as nat % (P as nat), b as nat % (P as nat)),
{
    (BaseElement::new(a) + BaseElement::new(b)).as_int()
}

/// Calls `<BaseElement as Sub>::sub` on `BaseElement::new(a)` and `BaseElement::new(b)`.
/// Claimed: the canonical result is `(a mod P - b mod P) mod P`.
#[verifier::external_body]
fn base_sub(a: u64, b: u64) -> (r: u64)
    ensures
        r as nat == fsub(a as nat % (P as nat), b as nat % (P as nat)),
{
    (BaseElement::new(a) - BaseElement::new(b)).as_int()
}

/// Calls `<BaseElement as Mul>::mul` on `BaseElement::new(a)` and `BaseElement::new(b)`.
/// Claimed: the canonical result is `(a mod P) * (b mod P) mod P`.
#[verifier::external_body]
fn base_mul(a: u64, b: u64) -> (r: u64)
    ensures
        r as nat == fmul(a as nat % (P as nat), b as nat % (P as nat)),
{
    (BaseElement::new(a) * BaseElement::new(b)).as_int()
}

/// Calls `<BaseElement as Neg>::neg` on `BaseElement::new(a)`. Claimed: the canonical result
/// is `(0 - a mod P) mod P`.
#[verifier::external_body]
fn base_neg(a: u64) -> (r: u64)
    ensures
        r as nat == fneg(a as nat % (P as nat)),
{
    (-BaseElement::new(a)).as_int()
}

/// Calls `winter_math::batch_inversion` on the elements `BaseElement::new(values[i])`.
/// Claimed, as its documentation says: one output per input; a zero input gives zero, any
/// other input its multiplicative inverse.
#[verifier::external_body]
fn base_batch_inversion(values: &[u64]) -> (r: Vec<u64>)
    ensures
        r@.len() == values@.len(),
        forall|i: int|
            0 <= i < values@.len() ==> {
                &&& (#[trigger] r@[i]) < P
                &&& values@[i] as nat % (P as nat) == 0 ==> r@[i] == 0
                &&& values@[i] as nat % (P as nat) != 0 ==> fmul(
                    values@[i] as nat % (P as nat),
                    r@[i] as nat,
                ) == 1
            },
{
    let elements: Vec<BaseElement> = values.iter().map(|v| BaseElement::new(*v)).collect();
    winter_math::batch_inversion(&elements).iter().map(|e| e.as_int()).collect()
}

/// Calls `winter_math::polynom::eval` on the coefficients `BaseElement::new(p[i])` at the
/// point `BaseElement::new(x)`. Claimed, as its documentation says: the value of the
/// polynomial at the point, which it computes by Horner's method as the fold over the
/// reversed coefficients of `acc * x + c` starting from zero.
#[verifier::external_body]
fn base_poly_eval(p: &[u64], x: u64) -> (r: u64)
    ensures
        r as nat == poly_value(p@.map_values(|c: u64| c as nat % (P as nat)), x as nat % (P as nat)),
{
    let coefficients: Vec<BaseElement> = p.iter().map(|c| BaseElement::new(*c)).collect();
    winter_math::polynom::eval(&coefficients, BaseElement::new(x)).as_int()
}

/// The value at `x` of the polynomial with coefficients `p`, lowest degree first:
/// `p[0] + x * (p[1] + x * (p[2] + ...))`.
pub open spec fn poly_value(p: Seq<nat>, x: nat) -> nat
    decreases p.len(),
{
    if p.len() == 0 {
        0
    } else {
        fadd(fmul(poly_value(p.drop_first(), x), x), p[0])
    }
}

// FIELD ELEMENT
// ================================================================================================

/// An element of the field, viewed as its canonical value in `[0, P)`.
#[derive(Clone, Copy, Debug)]
pub struct Felt {
    value: u64,
}

impl View for Felt {
    type V = nat;

    closed spec fn view(&self) -> nat {
        self.value as nat % (P as nat)
    }
}

/// The view of an element is a canonical value.
pub broadcast proof fn lemma_felt_lt_p(f: Felt)
    ensures
        #[trigger] f@ < P,
{
}

/// The canonical values of a sequence of elements.
pub open spec fn felts(s: Seq<Felt>) -> Seq<nat> {
    s.map_values(|f: Felt| f@)
}

impl PartialEq for Felt {
    fn eq(&self, other: &Self) -> (r: bool) {
        self.value % P == other.value % P
    }
}

impl vstd::std_specs::cmp::PartialEqSpecImpl for Felt {
    open spec fn obeys_eq_spec() -> bool {
        true
    }

    open spec fn eq_spec(&self, other: &Felt) -> bool {
        self@ == other@
    }
}

impl Eq for Felt {
}

impl Felt {
    /// Creates an element from `value`, reducing it modulo `P`.
    pub fn new(value: u64) -> (r: Felt)
        ensures
            r@ == value as nat % (P as nat),
    {
        let v = base_new(value);
        Felt { value: v }
    }

    /// The additive identity.
    pub fn zero() -> (r: Felt)
        ensures
            r@ == 0,
    {
        Felt::new(0)
    }

    /// The multiplicative identity.
    pub fn one() -> (r: Felt)
        ensures
            r@ == 1,
    {
        Felt::new(1)
    }

    /// Converts a 32-bit integer into an element.
    pub fn from_u32(value: u32) -> (r: Felt)
        ensures
            r@ == value as nat,
    {
        Felt::new(value as u64)
    }

    /// Returns the canonical integer representation of this element.
    pub fn as_int(&self) -> (r: u64)
        ensures
            r as nat == self@,
    {
        self.value % P
    }

    /// Field addition.
    pub fn add(self, rhs: Felt) -> (r: Felt)
        ensures
            r@ == fadd(self@, rhs@),
    {
        let v = base_add(self.value, rhs.value);
        Felt { value: v }
    }

    /// Field subtraction.
    pub fn sub(self, rhs: Felt) -> (r: Felt)
        ensures
            r@ == fsub(self@, rhs@),
    {
        let v = base_sub(self.value, rhs.value);
        Felt { value: v }
    }

    /// Field multiplication.
    pub fn mul(self, rhs: Felt) -> (r: Felt)
        ensures
            r@ == fmul(self@, rhs@),
    {
        let v = base_mul(self.value, rhs.value);
        Felt { value: v }
    }

    /// Field negation.
    pub fn neg(self) -> (r: Felt)
        ensures
            r@ == fneg(self@),
    {
        let v = base_neg(self.value);
        Felt { value: v }
    }
}

/// The multiplicative inverses of `values`, zero standing for the inverse of zero.
pub fn batch_inversion(values: &[Felt]) -> (r: Vec<Felt>)
    ensures
        r@.len() == values@.len(),
        forall|i: int|
            0 <= i < values@.len() ==> {
                &&& values@[i]@ == 0 ==> (#[trigger] r@[i])@ == 0
                &&& values@[i]@ != 0 ==> fmul(values@[i]@, r@[i]@) == 1
            },
{
    let mut raw: Vec<u64> = Vec::new();
    let mut i: usize = 0;
    while i < values.len()
        invariant
            i <= values@.len(),
            raw@.len() == i,
            forall|j: int| 0 <= j < i ==> (#[trigger] raw@[j]) as nat % (P as nat) == values@[j]@,
        decreases values@.len() - i,
    {
        raw.push(values[i].as_int());
        i = i + 1;
    }
    let inv = base_batch_inversion(raw.as_slice());
    let mut out: Vec<Felt> = Vec::new();
    let mut k: usize = 0;
    while k < inv.len()
        invariant
            k <= inv@.len(),
            inv@.len() == values@.len(),
            raw@.len() == values@.len(),
            out@.len() == k,
            forall|j: int| 0 <= j < values@.len() ==> (#[trigger] raw@[j]) as nat % (P as nat) == values@[j]@,
            forall|j: int|
                0 <= j < values@.len() ==> {
                    &&& (#[trigger] inv@[j]) < P
                    &&& raw@[j] as nat % (P as nat) == 0 ==> inv@[j] == 0
                    &&& raw@[j] as nat % (P as nat) != 0 ==> fmul(
                        raw@[j] as nat % (P as nat),
                        inv@[j] as nat,
                    ) == 1
                },
            forall|j: int| 0 <= j < k ==> (#[trigger] out@[j])@ == inv@[j] as nat,
        decreases inv@.len() - k,
    {
        let x = inv[k];
        out.push(Felt { value: x });
        proof {
            lemma_small_mod(x as nat, P as nat);
        }
        k = k + 1;
    }
    out
}

/// The value at `x` of the polynomial with coefficients `p`, lowest degree first.
pub fn poly_eval(p: &[Felt], x: Felt) -> (r: Felt)
    ensures
        r@ == poly_value(felts(p@), x@),
{
    let mut raw: Vec<u64> = Vec::new();
    let mut i: usize = 0;
    while i < p.len()
        invariant
            i <= p@.len(),
            raw@.len() == i,
            forall|j: int| 0 <= j < i ==> (#[trigger] raw@[j]) as nat == p@[j]@,
        decreases p@.len() - i,
    {
        raw.push(p[i].as_int());
        i = i + 1;
    }
    let v = base_poly_eval(raw.as_slice(), x.as_int());
    proof {
        assert forall|j: int| 0 <= j < p@.len() implies raw@[j] as nat % (P as nat) == p@[j]@ by {
            lemma_small_mod(raw@[j] as nat, P as nat);
        }
        assert(raw@.map_values(|c: u64| c as nat % (P as nat)) =~= felts(p@));
        lemma_small_mod(x@, P as nat);
        lemma_poly_value_lt_p(felts(p@), x@);
        lemma_small_mod(v as nat, P as nat);
    }
    Felt { value: v }
}

// FIELD ALGEBRA
// ================================================================================================

/// Every field operation yields a canonical value.
pub broadcast proof fn lemma_field_ops_lt_p(a: nat, b: nat)
    ensures
        #[trigger] fadd(a, b) < P,
        #[trigger] fsub(a, b) < P,
        #[trigger] fmul(a, b) < P,
{
}

/// The value of a polynomial is canonical.
pub proof fn lemma_poly_value_lt_p(p: Seq<nat>, x: nat)
    ensures
        poly_value(p, x) < P,
    decreases p.len(),
{
}

/// One is the multiplicative identity.
pub proof fn lemma_fmul_one(a: nat)
    requires
        a < P,
    ensures
        fmul(a, 1) == a,
        fmul(1, a) == a,
{
    lemma_small_mod(a, P as nat);
}

/// Zero is the additive identity.
pub proof fn lemma_fadd_zero(a: nat)
    requires
        a < P,
    ensures
        fadd(0, a) == a,
        fadd(a, 0) == a,
{
    lemma_small_mod(a, P as nat);
}

/// Multiplication is commutative.
pub proof fn lemma_fmul_comm(a: nat, b: nat)
    ensures
        fmul(a, b) == fmul(b, a),
{
    lemma_mul_is_commutative(a as int, b as int);
}

/// Multiplication is associative.
pub proof fn lemma_fmul_assoc(a: nat, b: nat, c: nat)
    ensures
        fmul(fmul(a, b), c) == fmul(a, fmul(b, c)),
{
    let p = P as int;
    lemma_mul_mod_noop_left((a * b) as int, c as int, p);
    lemma_mul_mod_noop_right(a as int, (b * c) as int, p);
    lemma_mul_is_associative(a as int, b as int, c as int);
}

/// `s - s * r == s * (1 - r)`.
pub proof fn lemma_fsub_fmul_one_minus(s: nat, r: nat)
    requires
        s < P,
        r < P,
    ensures
        fsub(s, fmul(s, r)) == fmul(s, fsub(1, r)),
{
    let p = P as int;
    // left: (s - (s*r % p)) % p == (s - s*r) % p
    lemma_sub_mod_noop(s as int, (s * r) as int, p);
    lemma_small_mod(s, P as nat);
    lemma_mod_twice((s * r) as int, p);
    // right: s * ((1 - r) % p) % p == s * (1 - r) % p
    lemma_mul_mod_noop_right(s as int, 1 - r, p);
    lemma_mul_is_distributive_sub(s as int, 1, r as int);
}

/// A product can be split off at its first factor.
pub proof fn lemma_fprod_first(s: Seq<nat>)
    requires
        s.len() > 0,
    ensures
        fprod(s) == fmul(s[0], fprod(s.drop_first())),
    decreases s.len(),
{
    if s.len() == 1 {
        assert(fprod(s.drop_last()) == 1);
        assert(fprod(s.drop_first()) == 1);
        assert(s.last() == s[0]);
    } else {
        let dl = s.drop_last();
        lemma_fprod_first(dl);
        assert(dl.drop_first() =~= s.drop_first().drop_last());
        assert(s.drop_first().last() == s.last());
        lemma_fmul_assoc(s[0], fprod(dl.drop_first()), s.last());
    }
}

/// The sum of the first `i + 1` values extends that of the first `i`.
pub proof fn lemma_fsum_prefix(s: Seq<nat>, i: int)
    requires
        0 <= i < s.len(),
    ensures
        fsum(s.take(i + 1)) == fadd(fsum(s.take(i)), s[i]),
{
    assert(s.take(i + 1).drop_last() =~= s.take(i));
}

/// The product of the first `i + 1` values extends that of the first `i`.
pub proof fn lemma_fprod_prefix(s: Seq<nat>, i: int)
    requires
        0 <= i < s.len(),
    ensures
        fprod(s.take(i + 1)) == fmul(fprod(s.take(i)), s[i]),
{
    assert(s.take(i + 1).drop_last() =~= s.take(i));
}

/// Addition is associative.
pub proof fn lemma_fadd_assoc(a: nat, b: nat, c: nat)
    ensures
        fadd(fadd(a, b), c) == fadd(a, fadd(b, c)),
{
    let p = P as int;
    lemma_add_mod_noop_right(c as int, (a + b) as int, p);
    lemma_add_mod_noop_right(a as int, (b + c) as int, p);
}

/// A sum can be split off at its first term.
pub proof fn lemma_fsum_first(s: Seq<nat>)
    requires
        s.len() > 0,
    ensures
        fsum(s) == fadd(s[0], fsum(s.drop_first())),
    decreases s.len(),
{
    if s.len() == 1 {
        assert(fsum(s.drop_last()) == 0);
        assert(fsum(s.drop_first()) == 0);
        assert(s.last() == s[0]);
    } else {
        let dl = s.drop_last();
        lemma_fsum_first(dl);
        assert(dl.drop_first() =~= s.drop_first().drop_last());
        assert(s.drop_first().last() == s.last());
        lemma_fadd_assoc(s[0], fsum(dl.drop_first()), s.last());
    }
}

} // verus!
