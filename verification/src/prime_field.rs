//! The modulus `P` is prime, by a Lucas certificate: `7^(P - 1) = 1` while
//! `7^((P - 1) / q) != 1` for every prime `q` of `P - 1 = 2^32 * 3 * 5 * 17 * 257 * 65537`.
//! So the powers `7^0, ..., 7^(P - 2)` are distinct, hence every non-zero value of the field
//! is one of them and has an inverse, and the field has no zero divisors.

use vstd::prelude::*;
use vstd::arithmetic::div_mod::*;
use vstd::arithmetic::mul::*;
use vstd::arithmetic::power2::*;
use vstd::set_lib::*;
use crate::field::{fmul, lemma_fmul_assoc, lemma_fmul_comm, lemma_fmul_one, P};
use crate::interpolation::invertible;

verus! {

// POWERS
// ================================================================================================

/// `a^k` in the field.
pub open spec fn fpow(a: nat, k: nat) -> nat
    decreases k,
{
    if k == 0 {
        1
    } else {
        fmul(fpow(a, (k - 1) as nat), a)
    }
}

/// `a^k` in the field, by repeated squaring.
pub open spec fn fpow_fast(a: nat, k: nat) -> nat
    decreases k,
{
    if k == 0 {
        1
    } else {
        let h = fpow_fast(a, k / 2);
        if k % 2 == 1 {
            fmul(fmul(h, h), a)
        } else {
            fmul(h, h)
        }
    }
}

/// A product of two values whose quotient and remainder by `P` are known.
proof fn lemma_fmul_literal(a: nat, b: nat, q: nat, r: nat)
    requires
        r < P,
        a * b == q * P + r,
    ensures
        fmul(a, b) == r,
{
    lemma_fundamental_div_mod_converse((a * b) as int, P as int, q as int, r as int);
}

/// Powers are canonical.
proof fn lemma_fpow_lt_p(a: nat, k: nat)
    ensures
        fpow(a, k) < P,
{
}

/// `a^(j + k) == a^j * a^k`.
proof fn lemma_fpow_add(a: nat, j: nat, k: nat)
    ensures
        fpow(a, j + k) == fmul(fpow(a, j), fpow(a, k)),
    decreases k,
{
    if k == 0 {
        lemma_fmul_one(fpow(a, j));
    } else {
        lemma_fpow_add(a, j, (k - 1) as nat);
        assert((j + k - 1) as nat == j + (k - 1) as nat);
        lemma_fmul_assoc(fpow(a, j), fpow(a, (k - 1) as nat), a);
    }
}

/// `a^(j * k) == (a^j)^k`.
proof fn lemma_fpow_mul(a: nat, j: nat, k: nat)
    ensures
        fpow(a, j * k) == fpow(fpow(a, j), k),
    decreases k,
{
    if k == 0 {
        assert(j * k == 0) by (nonlinear_arith)
            requires
                k == 0,
        ;
    } else {
        lemma_fpow_mul(a, j, (k - 1) as nat);
        assert(j * k == j * (k - 1) as nat + j) by (nonlinear_arith)
            requires
                k > 0,
        ;
        lemma_fpow_add(a, j * (k - 1) as nat, j);
    }
}

/// `1^k == 1`.
proof fn lemma_fpow_of_one(k: nat)
    ensures
        fpow(1, k) == 1,
    decreases k,
{
    if k > 0 {
        lemma_fpow_of_one((k - 1) as nat);
        lemma_fmul_one(1);
    }
}

/// Repeated squaring computes the power.
proof fn lemma_fpow_fast_is_fpow(a: nat, k: nat)
    requires
        a < P,
    ensures
        fpow_fast(a, k) == fpow(a, k),
    decreases k,
{
    if k > 0 {
        let h = k / 2;
        lemma_fpow_fast_is_fpow(a, h);
        lemma_fpow_add(a, h, h);
        if k % 2 == 1 {
            assert(k == (h + h) + 1);
        } else {
            assert(k == h + h);
        }
    }
}

/// If `a^x == 1` and `a^y == 1` then `a^(x mod y) == 1`.
proof fn lemma_fpow_one_mod(a: nat, x: nat, y: nat)
    requires
        y > 0,
        fpow(a, x) == 1,
        fpow(a, y) == 1,
    ensures
        fpow(a, x % y) == 1,
{
    let q = x / y;
    let r = x % y;
    lemma_fundamental_div_mod(x as int, y as int);
    assert(x == y * q + r);
    lemma_fpow_add(a, y * q, r);
    lemma_fpow_mul(a, y, q);
    lemma_fpow_of_one(q);
    lemma_fpow_lt_p(a, r);
    lemma_fmul_one(fpow(a, r));
}

// GREATEST COMMON DIVISORS
// ================================================================================================

/// The greatest common divisor, by Euclid's algorithm.
pub open spec fn gcd(a: nat, b: nat) -> nat
    decreases b,
{
    if b == 0 {
        a
    } else {
        gcd(b, a % b)
    }
}

/// If `a^x == 1` and `a^y == 1` then `a^gcd(x, y) == 1`.
proof fn lemma_fpow_one_gcd(a: nat, x: nat, y: nat)
    requires
        fpow(a, x) == 1,
        fpow(a, y) == 1,
    ensures
        fpow(a, gcd(x, y)) == 1,
    decreases y,
{
    if y > 0 {
        lemma_fpow_one_mod(a, x, y);
        lemma_fpow_one_gcd(a, y, x % y);
    }
}

/// The greatest common divisor divides both numbers.
proof fn lemma_gcd_divides(a: nat, b: nat)
    requires
        a > 0 || b > 0,
    ensures
        gcd(a, b) > 0,
        a % gcd(a, b) == 0,
        b % gcd(a, b) == 0,
    decreases b,
{
    if b == 0 {
        lemma_mod_self_0(a as int);
        lemma_small_mod(0, a);
    } else {
        let r = a % b;
        lemma_mod_pos_bound(a as int, b as int);
        lemma_gcd_divides(b, r);
        let g = gcd(b, r);
        lemma_fundamental_div_mod(a as int, b as int);
        lemma_fundamental_div_mod(b as int, g as int);
        lemma_fundamental_div_mod(r as int, g as int);
        let (q, tb, tr) = ((a / b) as int, (b / g) as int, (r / g) as int);
        assert(a == (tb * q + tr) * g) by (nonlinear_arith)
            requires
                a == b * q + r,
                b == g * tb,
                r == g * tr,
        ;
        lemma_mod_multiples_basic(tb * q + tr, g as int);
    }
}

/// Bezout's identity: `s * a + t * b == gcd(a, b)` for some integers `s`, `t`.
proof fn lemma_bezout(a: nat, b: nat) -> (st: (int, int))
    ensures
        st.0 * a + st.1 * b == gcd(a, b),
    decreases b,
{
    if b == 0 {
        (1, 0)
    } else {
        let r = a % b;
        let q = (a / b) as int;
        lemma_fundamental_div_mod(a as int, b as int);
        let (s1, t1) = lemma_bezout(b, r);
        let g = gcd(a, b) as int;
        assert(t1 * a + (s1 - t1 * q) * b == g) by (nonlinear_arith)
            requires
                a == b * q + r,
                s1 * b + t1 * r == g,
        ;
        (t1, s1 - t1 * q)
    }
}

/// Gauss's lemma: if `m` divides `q * t` and is coprime to `q`, it divides `t`.
proof fn lemma_gauss(m: nat, q: nat, t: nat)
    requires
        m > 0,
        gcd(m, q) == 1,
        (q * t) % m == 0,
    ensures
        t % m == 0,
{
    let (s, u) = lemma_bezout(m, q);
    lemma_fundamental_div_mod((q * t) as int, m as int);
    let k = ((q * t) / m) as int;
    assert(t == m * (s * t + u * k)) by (nonlinear_arith)
        requires
            s * m + u * q == 1,
            q * t == m * k,
    ;
    lemma_mod_multiples_basic(s * t + u * k, m as int);
}

// PRIMES
// ================================================================================================

/// `q` is prime.
pub open spec fn is_prime(q: nat) -> bool {
    q > 1 && forall|d: nat| 1 < d < q ==> #[trigger] (q % d) != 0
}

/// No number from 2 to `s` divides `q`.
spec fn no_divisor_up_to(q: nat, s: nat) -> bool
    decreases s,
{
    s < 2 || (q % s != 0 && no_divisor_up_to(q, (s - 1) as nat))
}

/// What `no_divisor_up_to` says of one number.
proof fn lemma_no_divisor_up_to(q: nat, s: nat, d: nat)
    requires
        no_divisor_up_to(q, s),
        2 <= d <= s,
    ensures
        q % d != 0,
    decreases s,
{
    if d < s {
        lemma_no_divisor_up_to(q, (s - 1) as nat, d);
    }
}

/// Trial division up to the square root shows a number prime.
proof fn lemma_prime_by_trial_division(q: nat, s: nat)
    requires
        q > 1,
        (s + 1) * (s + 1) > q,
        no_divisor_up_to(q, s),
    ensures
        is_prime(q),
{
    assert forall|d: nat| 1 < d < q implies #[trigger] (q % d) != 0 by {
        if q % d == 0 {
            lemma_fundamental_div_mod(q as int, d as int);
            let t = q / d;
            assert(q == d * t);
            assert(t >= 2) by (nonlinear_arith)
                requires
                    q == d * t,
                    d < q,
            ;
            if d <= t {
                assert(d <= s) by (nonlinear_arith)
                    requires
                        q == d * t,
                        d <= t,
                        (s + 1) * (s + 1) > q,
                ;
                lemma_no_divisor_up_to(q, s, d);
            } else {
                assert(t <= s) by (nonlinear_arith)
                    requires
                        q == d * t,
                        t < d,
                        (s + 1) * (s + 1) > q,
                ;
                lemma_mod_multiples_basic(d as int, t as int);
                assert(q % t == 0) by {
                    lemma_mul_is_commutative(d as int, t as int);
                }
                lemma_no_divisor_up_to(q, s, t);
            }
        }
    }
}

/// A number that a prime does not divide is coprime to it.
proof fn lemma_coprime_to_prime(m: nat, q: nat)
    requires
        is_prime(q),
        m > 0,
        m % q != 0,
    ensures
        gcd(m, q) == 1,
{
    lemma_gcd_divides(m, q);
    let g = gcd(m, q);
    lemma_fundamental_div_mod(q as int, g as int);
    assert(g <= q) by (nonlinear_arith)
        requires
            q == g * (q / g) + q % g,
            q % g == 0,
            g > 0,
            q > 0,
    ;
    if g != 1 && g != q {
        assert(q % g != 0);
    }
}

/// 2 is prime.
proof fn lemma_prime_2()
    ensures
        is_prime(2),
{
}

/// 3 is prime.
proof fn lemma_prime_3()
    ensures
        is_prime(3),
{
    assert forall|d: nat| 1 < d < 3 implies #[trigger] (3nat % d) != 0 by {
        assert(d == 2);
    }
}

/// `7^(P - 1) == 1`.
proof fn lemma_generator_power_full()
    ensures
        fpow(7, 18446744069414584320) == 1,
{
    lemma_powers_full_by_squaring();
    lemma_fpow_fast_is_fpow(7, 18446744069414584320);
}

/// The squarings along the binary digits of the exponent, each reduced modulo `P`.
proof fn lemma_powers_full_by_squaring()
    ensures
        fpow_fast(7, 18446744069414584320) == 1,
{
    assert(fpow_fast(7, 0) == 1);
    lemma_fmul_literal(1, 1, 0, 1);
    lemma_fmul_literal(1, 7, 0, 7);
    assert(fpow_fast(7, 1) == 7);
    lemma_fmul_literal(7, 7, 0, 49);
    lemma_fmul_literal(49, 7, 0, 343);
    assert(fpow_fast(7, 3) == 343);
    lemma_fmul_literal(343, 343, 0, 117649);
    lemma_fmul_literal(117649, 7, 0, 823543);
    assert(fpow_fast(7, 7) == 823543);
    lemma_fmul_literal(823543, 823543, 0, 678223072849);
    lemma_fmul_literal(678223072849, 7, 0, 4747561509943);
    assert(fpow_fast(7, 15) == 4747561509943);
    lemma_fmul_literal(4747561509943, 4747561509943, 1221860, 1582037354089406189);
    lemma_fmul_literal(1582037354089406189, 7, 0, 11074261478625843323);
    assert(fpow_fast(7, 31) == 11074261478625843323);
    lemma_fmul_literal(11074261478625843323, 11074261478625843323, 6648288003318531524, 14911712358349047125);
    lemma_fmul_literal(14911712358349047125, 7, 5, 12148266161370408270);
    assert(fpow_fast(7, 63) == 12148266161370408270);
    lemma_fmul_literal(12148266161370408270, 12148266161370408270, 8000347929811162796, 14177331716484271384);
    lemma_fmul_literal(14177331716484271384, 7, 5, 7007601668316978083);
    assert(fpow_fast(7, 127) == 7007601668316978083);
    lemma_fmul_literal(7007601668316978083, 7007601668316978083, 2662067677472651718, 1160753142525841411);
    lemma_fmul_literal(1160753142525841411, 7, 0, 8125271997680889877);
    assert(fpow_fast(7, 255) == 8125271997680889877);
    lemma_fmul_literal(8125271997680889877, 8125271997680889877, 3578953813630503444, 10915923311382173605);
    lemma_fmul_literal(10915923311382173605, 7, 4, 2624486902016877951);
    assert(fpow_fast(7, 511) == 2624486902016877951);
    lemma_fmul_literal(2624486902016877951, 2624486902016877951, 373395514836605044, 1179017105118043277);
    lemma_fmul_literal(1179017105118043277, 7, 0, 8253119735826302939);
    assert(fpow_fast(7, 1023) == 8253119735826302939);
    lemma_fmul_literal(8253119735826302939, 8253119735826302939, 3692466546810352761, 13682469552810377440);
    lemma_fmul_literal(13682469552810377440, 7, 5, 3543566522599720475);
    assert(fpow_fast(7, 2047) == 3543566522599720475);
    lemma_fmul_literal(3543566522599720475, 3543566522599720475, 680708945320558836, 12252646851770615269);
    lemma_fmul_literal(12252646851770615269, 7, 4, 11981551684735969599);
    assert(fpow_fast(7, 4095) == 11981551684735969599);
    lemma_fmul_literal(11981551684735969599, 11981551684735969599, 7782272049408620407, 9343193256669382154);
    lemma_fmul_literal(9343193256669382154, 7, 3, 10062120588441922115);
    assert(fpow_fast(7, 8191) == 10062120588441922115);
    lemma_fmul_literal(10062120588441922115, 10062120588441922115, 5488571335698045963, 4133221502128927102);
    lemma_fmul_literal(4133221502128927102, 7, 1, 10485806445487905393);
    assert(fpow_fast(7, 16383) == 10485806445487905393);
    lemma_fmul_literal(10485806445487905393, 10485806445487905393, 5960517281450258735, 5861853314594190514);
    lemma_fmul_literal(5861853314594190514, 7, 2, 4139485063330164956);
    assert(fpow_fast(7, 32767) == 4139485063330164956);
    lemma_fmul_literal(4139485063330164956, 4139485063330164956, 928908458048409263, 7004045467739516513);
    lemma_fmul_literal(7004045467739516513, 7, 2, 12134830135347446949);
    assert(fpow_fast(7, 65535) == 12134830135347446949);
    lemma_fmul_literal(12134830135347446949, 12134830135347446949, 7982660889077413892, 618113109518621269);
    lemma_fmul_literal(618113109518621269, 7, 0, 4326791766630348883);
    assert(fpow_fast(7, 131071) == 4326791766630348883);
    lemma_fmul_literal(4326791766630348883, 4326791766630348883, 1014874328029547970, 13205783127219969319);
    lemma_fmul_literal(13205783127219969319, 7, 5, 206761543466863628);
    assert(fpow_fast(7, 262143) == 206761543466863628);
    lemma_fmul_literal(206761543466863628, 206761543466863628, 2317500351060946, 14617186517222294718);
    lemma_fmul_literal(14617186517222294718, 7, 5, 10086585273483141421);
    assert(fpow_fast(7, 524287) == 10086585273483141421);
    lemma_fmul_literal(10086585273483141421, 10086585273483141421, 5515293219031238933, 5535602650859329748);
    lemma_fmul_literal(5535602650859329748, 7, 2, 1855730417186139594);
    assert(fpow_fast(7, 1048575) == 1855730417186139594);
    lemma_fmul_literal(1855730417186139594, 1855730417186139594, 186685269135364124, 3724741596018185032);
    lemma_fmul_literal(3724741596018185032, 7, 1, 7626447102712710903);
    assert(fpow_fast(7, 2097151) == 7626447102712710903);
    lemma_fmul_literal(7626447102712710903, 7626447102712710903, 3153006036816605629, 11653985196031332500);
    lemma_fmul_literal(11653985196031332500, 7, 4, 7790920094560990216);
    assert(fpow_fast(7, 4194303) == 7790920094560990216);
    lemma_fmul_literal(7790920094560990216, 7790920094560990216, 3290468805303944391, 16654626667483233145);
    lemma_fmul_literal(16654626667483233145, 7, 6, 5901922255895126089);
    assert(fpow_fast(7, 8388607) == 5901922255895126089);
    lemma_fmul_literal(5901922255895126089, 5901922255895126089, 1888283709231059174, 9182212999444825067);
    lemma_fmul_literal(9182212999444825067, 7, 3, 8935258787870022506);
    assert(fpow_fast(7, 16777215) == 8935258787870022506);
    lemma_fmul_literal(8935258787870022506, 8935258787870022506, 4328072710597441788, 17682034324931514088);
    lemma_fmul_literal(17682034324931514088, 7, 6, 13093775858033092690);
    assert(fpow_fast(7, 33554431) == 13093775858033092690);
    lemma_fmul_literal(13093775858033092690, 13093775858033092690, 9294158664274849393, 9511995656157268947);
    lemma_fmul_literal(9511995656157268947, 7, 3, 11243737384857129666);
    assert(fpow_fast(7, 67108863) == 11243737384857129666);
    lemma_fmul_literal(11243737384857129666, 11243737384857129666, 6853330316933588389, 16106297366990222687);
    lemma_fmul_literal(16106297366990222687, 7, 6, 2063617152444052883);
    assert(fpow_fast(7, 134217727) == 2063617152444052883);
    lemma_fmul_literal(2063617152444052883, 2063617152444052883, 230854601540338240, 4501656151559876649);
    lemma_fmul_literal(4501656151559876649, 7, 1, 13064848991504552222);
    assert(fpow_fast(7, 268435455) == 13064848991504552222);
    lemma_fmul_literal(13064848991504552222, 13064848991504552222, 9253138577112294032, 2370486178716065012);
    lemma_fmul_literal(2370486178716065012, 7, 0, 16593403251012455084);
    assert(fpow_fast(7, 536870911) == 16593403251012455084);
    lemma_fmul_literal(16593403251012455084, 16593403251012455084, 14926267227138300310, 14013264900002007546);
    lemma_fmul_literal(14013264900002007546, 7, 5, 5859133952941131217);
    assert(fpow_fast(7, 1073741823) == 5859133952941131217);
    lemma_fmul_literal(5859133952941131217, 5859133952941131217, 1861003250726892451, 10142762553374040318);
    lemma_fmul_literal(10142762553374040318, 7, 3, 15659105665374529263);
    assert(fpow_fast(7, 2147483647) == 15659105665374529263);
    lemma_fmul_literal(15659105665374529263, 15659105665374529263, 13292730105467682755, 16062014221418238814);
    lemma_fmul_literal(16062014221418238814, 7, 6, 1753635133440165772);
    assert(fpow_fast(7, 4294967295) == 1753635133440165772);
    lemma_fmul_literal(1753635133440165772, 1753635133440165772, 166708887468903991, 4614640910117430873);
    assert(fpow_fast(7, 8589934590) == 4614640910117430873);
    lemma_fmul_literal(4614640910117430873, 4614640910117430873, 1154399424049971884, 9123114210336311365);
    assert(fpow_fast(7, 17179869180) == 9123114210336311365);
    lemma_fmul_literal(9123114210336311365, 9123114210336311365, 4511973093009996851, 16116352524544190054);
    assert(fpow_fast(7, 34359738360) == 16116352524544190054);
    lemma_fmul_literal(16116352524544190054, 16116352524544190054, 14080361158478670879, 6414415596519834757);
    assert(fpow_fast(7, 68719476720) == 6414415596519834757);
    lemma_fmul_literal(6414415596519834757, 6414415596519834757, 2230460144622294524, 1213594585890690845);
    assert(fpow_fast(7, 137438953440) == 1213594585890690845);
    lemma_fmul_literal(1213594585890690845, 1213594585890690845, 79841288704448195, 17096174751763063430);
    assert(fpow_fast(7, 274877906880) == 17096174751763063430);
    lemma_fmul_literal(17096174751763063430, 17096174751763063430, 15844486704156700236, 5456943929260765144);
    assert(fpow_fast(7, 549755813760) == 5456943929260765144);
    lemma_fmul_literal(5456943929260765144, 5456943929260765144, 1614281465338340559, 9713644485405565297);
    assert(fpow_fast(7, 1099511627520) == 9713644485405565297);
    lemma_fmul_literal(9713644485405565297, 9713644485405565297, 5114988793349933654, 16905767614792059275);
    assert(fpow_fast(7, 2199023255040) == 16905767614792059275);
    lemma_fmul_literal(16905767614792059275, 16905767614792059275, 15493518941330557636, 5416168637041100469);
    assert(fpow_fast(7, 4398046510080) == 5416168637041100469);
    lemma_fmul_literal(5416168637041100469, 5416168637041100469, 1590247178281506213, 17654865857378133588);
    assert(fpow_fast(7, 8796093020160) == 17654865857378133588);
    lemma_fmul_literal(17654865857378133588, 17654865857378133588, 16896981237942002723, 3511170319078647661);
    assert(fpow_fast(7, 17592186040320) == 3511170319078647661);
    lemma_fmul_literal(3511170319078647661, 3511170319078647661, 668319404399374695, 18146160046829613826);
    assert(fpow_fast(7, 35184372080640) == 18146160046829613826);
    lemma_fmul_literal(18146160046829613826, 18146160046829613826, 17850473948468743512, 9306717745644682924);
    assert(fpow_fast(7, 70368744161280) == 9306717745644682924);
    lemma_fmul_literal(9306717745644682924, 9306717745644682924, 4695408299218975106, 12380578893860276750);
    assert(fpow_fast(7, 140737488322560) == 12380578893860276750);
    lemma_fmul_literal(12380578893860276750, 12380578893860276750, 8309256808156222390, 6115771955107415310);
    assert(fpow_fast(7, 281474976645120) == 6115771955107415310);
    lemma_fmul_literal(6115771955107415310, 6115771955107415310, 2027602620068516376, 17776499369601055404);
    assert(fpow_fast(7, 562949953290240) == 17776499369601055404);
    lemma_fmul_literal(17776499369601055404, 17776499369601055404, 17130607366173278638, 16207902636198568418);
    assert(fpow_fast(7, 1125899906580480) == 16207902636198568418);
    lemma_fmul_literal(16207902636198568418, 16207902636198568418, 14240784545824149997, 1532612707718625687);
    assert(fpow_fast(7, 2251799813160960) == 1532612707718625687);
    lemma_fmul_literal(1532612707718625687, 1532612707718625687, 127334216977357403, 17492915097719143606);
    assert(fpow_fast(7, 4503599626321920) == 17492915097719143606);
    lemma_fmul_literal(17492915097719143606, 17492915097719143606, 16588405924890216597, 455906449640507599);
    assert(fpow_fast(7, 9007199252643840) == 455906449640507599);
    lemma_fmul_literal(455906449640507599, 455906449640507599, 11267608529812975, 11353340290879379826);
    assert(fpow_fast(7, 18014398505287680) == 11353340290879379826);
    lemma_fmul_literal(11353340290879379826, 11353340290879379826, 6987592784692205430, 1803076106186727246);
    assert(fpow_fast(7, 36028797010575360) == 1803076106186727246);
    lemma_fmul_literal(1803076106186727246, 1803076106186727246, 176241586724885086, 13797081185216407910);
    assert(fpow_fast(7, 72057594021150720) == 13797081185216407910);
    lemma_fmul_literal(13797081185216407910, 13797081185216407910, 10319406422896923811, 17870292113338400769);
    assert(fpow_fast(7, 144115188042301440) == 17870292113338400769);
    lemma_fmul_literal(17870292113338400769, 17870292113338400769, 17311854006015885313, 549755813888);
    assert(fpow_fast(7, 288230376084602880) == 549755813888);
    lemma_fmul_literal(549755813888, 549755813888, 16384, 70368744161280);
    assert(fpow_fast(7, 576460752169205760) == 70368744161280);
    lemma_fmul_literal(70368744161280, 70368744161280, 268435455, 17293822564807737345);
    assert(fpow_fast(7, 1152921504338411520) == 17293822564807737345);
    lemma_fmul_literal(17293822564807737345, 17293822564807737345, 16212958654255595520, 18446744069397807105);
    assert(fpow_fast(7, 2305843008676823040) == 18446744069397807105);
    lemma_fmul_literal(18446744069397807105, 18446744069397807105, 18446744069381029889, 281474976710656);
    assert(fpow_fast(7, 4611686017353646080) == 281474976710656);
    lemma_fmul_literal(281474976710656, 281474976710656, 4294967296, 18446744069414584320);
    assert(fpow_fast(7, 9223372034707292160) == 18446744069414584320);
    lemma_fmul_literal(18446744069414584320, 18446744069414584320, 18446744069414584319, 1);
    assert(fpow_fast(7, 18446744069414584320) == 1);
}

/// `7^((P - 1) / 2) != 1`.
proof fn lemma_generator_power_2()
    ensures
        fpow(7, 9223372034707292160) == 18446744069414584320,
{
    lemma_powers_2_by_squaring();
    lemma_fpow_fast_is_fpow(7, 9223372034707292160);
}

/// The squarings along the binary digits of the exponent, each reduced modulo `P`.
proof fn lemma_powers_2_by_squaring()
    ensures
        fpow_fast(7, 9223372034707292160) == 18446744069414584320,
{
    assert(fpow_fast(7, 0) == 1);
    lemma_fmul_literal(1, 1, 0, 1);
    lemma_fmul_literal(1, 7, 0, 7);
    assert(fpow_fast(7, 1) == 7);
    lemma_fmul_literal(7, 7, 0, 49);
    lemma_fmul_literal(49, 7, 0, 343);
    assert(fpow_fast(7, 3) == 343);
    lemma_fmul_literal(343, 343, 0, 117649);
    lemma_fmul_literal(117649, 7, 0, 823543);
    assert(fpow_fast(7, 7) == 823543);
    lemma_fmul_literal(823543, 823543, 0, 678223072849);
    lemma_fmul_literal(678223072849, 7, 0, 4747561509943);
    assert(fpow_fast(7, 15) == 4747561509943);
    lemma_fmul_literal(4747561509943, 4747561509943, 1221860, 1582037354089406189);
    lemma_fmul_literal(1582037354089406189, 7, 0, 11074261478625843323);
    assert(fpow_fast(7, 31) == 11074261478625843323);
    lemma_fmul_literal(11074261478625843323, 11074261478625843323, 6648288003318531524, 14911712358349047125);
    lemma_fmul_literal(14911712358349047125, 7, 5, 12148266161370408270);
    assert(fpow_fast(7, 63) == 12148266161370408270);
    lemma_fmul_literal(12148266161370408270, 12148266161370408270, 8000347929811162796, 14177331716484271384);
    lemma_fmul_literal(14177331716484271384, 7, 5, 7007601668316978083);
    assert(fpow_fast(7, 127) == 7007601668316978083);
    lemma_fmul_literal(7007601668316978083, 7007601668316978083, 2662067677472651718, 1160753142525841411);
    lemma_fmul_literal(1160753142525841411, 7, 0, 8125271997680889877);
    assert(fpow_fast(7, 255) == 8125271997680889877);
    lemma_fmul_literal(8125271997680889877, 8125271997680889877, 3578953813630503444, 10915923311382173605);
    lemma_fmul_literal(10915923311382173605, 7, 4, 2624486902016877951);
    assert(fpow_fast(7, 511) == 2624486902016877951);
    lemma_fmul_literal(2624486902016877951, 2624486902016877951, 373395514836605044, 1179017105118043277);
    lemma_fmul_literal(1179017105118043277, 7, 0, 8253119735826302939);
    assert(fpow_fast(7, 1023) == 8253119735826302939);
    lemma_fmul_literal(8253119735826302939, 8253119735826302939, 3692466546810352761, 13682469552810377440);
    lemma_fmul_literal(13682469552810377440, 7, 5, 3543566522599720475);
    assert(fpow_fast(7, 2047) == 3543566522599720475);
    lemma_fmul_literal(3543566522599720475, 3543566522599720475, 680708945320558836, 12252646851770615269);
    lemma_fmul_literal(12252646851770615269, 7, 4, 11981551684735969599);
    assert(fpow_fast(7, 4095) == 11981551684735969599);
    lemma_fmul_literal(11981551684735969599, 11981551684735969599, 7782272049408620407, 9343193256669382154);
    lemma_fmul_literal(9343193256669382154, 7, 3, 10062120588441922115);
    assert(fpow_fast(7, 8191) == 10062120588441922115);
    lemma_fmul_literal(10062120588441922115, 10062120588441922115, 5488571335698045963, 4133221502128927102);
    lemma_fmul_literal(4133221502128927102, 7, 1, 10485806445487905393);
    assert(fpow_fast(7, 16383) == 10485806445487905393);
    lemma_fmul_literal(10485806445487905393, 10485806445487905393, 5960517281450258735, 5861853314594190514);
    lemma_fmul_literal(5861853314594190514, 7, 2, 4139485063330164956);
    assert(fpow_fast(7, 32767) == 4139485063330164956);
    lemma_fmul_literal(4139485063330164956, 4139485063330164956, 928908458048409263, 7004045467739516513);
    lemma_fmul_literal(7004045467739516513, 7, 2, 12134830135347446949);
    assert(fpow_fast(7, 65535) == 12134830135347446949);
    lemma_fmul_literal(12134830135347446949, 12134830135347446949, 7982660889077413892, 618113109518621269);
    lemma_fmul_literal(618113109518621269, 7, 0, 4326791766630348883);
    assert(fpow_fast(7, 131071) == 4326791766630348883);
    lemma_fmul_literal(4326791766630348883, 4326791766630348883, 1014874328029547970, 13205783127219969319);
    lemma_fmul_literal(13205783127219969319, 7, 5, 206761543466863628);
    assert(fpow_fast(7, 262143) == 206761543466863628);
    lemma_fmul_literal(206761543466863628, 206761543466863628, 2317500351060946, 14617186517222294718);
    lemma_fmul_literal(14617186517222294718, 7, 5, 10086585273483141421);
    assert(fpow_fast(7, 524287) == 10086585273483141421);
    lemma_fmul_literal(10086585273483141421, 10086585273483141421, 5515293219031238933, 5535602650859329748);
    lemma_fmul_literal(5535602650859329748, 7, 2, 1855730417186139594);
    assert(fpow_fast(7, 1048575) == 1855730417186139594);
    lemma_fmul_literal(1855730417186139594, 1855730417186139594, 186685269135364124, 3724741596018185032);
    lemma_fmul_literal(3724741596018185032, 7, 1, 7626447102712710903);
    assert(fpow_fast(7, 2097151) == 7626447102712710903);
    lemma_fmul_literal(7626447102712710903, 7626447102712710903, 3153006036816605629, 11653985196031332500);
    lemma_fmul_literal(11653985196031332500, 7, 4, 7790920094560990216);
    assert(fpow_fast(7, 4194303) == 7790920094560990216);
    lemma_fmul_literal(7790920094560990216, 7790920094560990216, 3290468805303944391, 16654626667483233145);
    lemma_fmul_literal(16654626667483233145, 7, 6, 5901922255895126089);
    assert(fpow_fast(7, 8388607) == 5901922255895126089);
    lemma_fmul_literal(5901922255895126089, 5901922255895126089, 1888283709231059174, 9182212999444825067);
    lemma_fmul_literal(9182212999444825067, 7, 3, 8935258787870022506);
    assert(fpow_fast(7, 16777215) == 8935258787870022506);
    lemma_fmul_literal(8935258787870022506, 8935258787870022506, 4328072710597441788, 17682034324931514088);
    lemma_fmul_literal(17682034324931514088, 7, 6, 13093775858033092690);
    assert(fpow_fast(7, 33554431) == 13093775858033092690);
    lemma_fmul_literal(13093775858033092690, 13093775858033092690, 9294158664274849393, 9511995656157268947);
    lemma_fmul_literal(9511995656157268947, 7, 3, 11243737384857129666);
    assert(fpow_fast(7, 67108863) == 11243737384857129666);
    lemma_fmul_literal(11243737384857129666, 11243737384857129666, 6853330316933588389, 16106297366990222687);
    lemma_fmul_literal(16106297366990222687, 7, 6, 2063617152444052883);
    assert(fpow_fast(7, 134217727) == 2063617152444052883);
    lemma_fmul_literal(2063617152444052883, 2063617152444052883, 230854601540338240, 4501656151559876649);
    lemma_fmul_literal(4501656151559876649, 7, 1, 13064848991504552222);
    assert(fpow_fast(7, 268435455) == 13064848991504552222);
    lemma_fmul_literal(13064848991504552222, 13064848991504552222, 9253138577112294032, 2370486178716065012);
    lemma_fmul_literal(2370486178716065012, 7, 0, 16593403251012455084);
    assert(fpow_fast(7, 536870911) == 16593403251012455084);
    lemma_fmul_literal(16593403251012455084, 16593403251012455084, 14926267227138300310, 14013264900002007546);
    lemma_fmul_literal(14013264900002007546, 7, 5, 5859133952941131217);
    assert(fpow_fast(7, 1073741823) == 5859133952941131217);
    lemma_fmul_literal(5859133952941131217, 5859133952941131217, 1861003250726892451, 10142762553374040318);
    lemma_fmul_literal(10142762553374040318, 7, 3, 15659105665374529263);
    assert(fpow_fast(7, 2147483647) == 15659105665374529263);
    lemma_fmul_literal(15659105665374529263, 15659105665374529263, 13292730105467682755, 16062014221418238814);
    lemma_fmul_literal(16062014221418238814, 7, 6, 1753635133440165772);
    assert(fpow_fast(7, 4294967295) == 1753635133440165772);
    lemma_fmul_literal(1753635133440165772, 1753635133440165772, 166708887468903991, 4614640910117430873);
    assert(fpow_fast(7, 8589934590) == 4614640910117430873);
    lemma_fmul_literal(4614640910117430873, 4614640910117430873, 1154399424049971884, 9123114210336311365);
    assert(fpow_fast(7, 17179869180) == 9123114210336311365);
    lemma_fmul_literal(9123114210336311365, 9123114210336311365, 4511973093009996851, 16116352524544190054);
    assert(fpow_fast(7, 34359738360) == 16116352524544190054);
    lemma_fmul_literal(16116352524544190054, 16116352524544190054, 14080361158478670879, 6414415596519834757);
    assert(fpow_fast(7, 68719476720) == 6414415596519834757);
    lemma_fmul_literal(6414415596519834757, 6414415596519834757, 2230460144622294524, 1213594585890690845);
    assert(fpow_fast(7, 137438953440) == 1213594585890690845);
    lemma_fmul_literal(1213594585890690845, 1213594585890690845, 79841288704448195, 17096174751763063430);
    assert(fpow_fast(7, 274877906880) == 17096174751763063430);
    lemma_fmul_literal(17096174751763063430, 17096174751763063430, 15844486704156700236, 5456943929260765144);
    assert(fpow_fast(7, 549755813760) == 5456943929260765144);
    lemma_fmul_literal(5456943929260765144, 5456943929260765144, 1614281465338340559, 9713644485405565297);
    assert(fpow_fast(7, 1099511627520) == 9713644485405565297);
    lemma_fmul_literal(9713644485405565297, 9713644485405565297, 5114988793349933654, 16905767614792059275);
    assert(fpow_fast(7, 2199023255040) == 16905767614792059275);
    lemma_fmul_literal(16905767614792059275, 16905767614792059275, 15493518941330557636, 5416168637041100469);
    assert(fpow_fast(7, 4398046510080) == 5416168637041100469);
    lemma_fmul_literal(5416168637041100469, 5416168637041100469, 1590247178281506213, 17654865857378133588);
    assert(fpow_fast(7, 8796093020160) == 17654865857378133588);
    lemma_fmul_literal(17654865857378133588, 17654865857378133588, 16896981237942002723, 3511170319078647661);
    assert(fpow_fast(7, 17592186040320) == 3511170319078647661);
    lemma_fmul_literal(3511170319078647661, 3511170319078647661, 668319404399374695, 18146160046829613826);
    assert(fpow_fast(7, 35184372080640) == 18146160046829613826);
    lemma_fmul_literal(18146160046829613826, 18146160046829613826, 17850473948468743512, 9306717745644682924);
    assert(fpow_fast(7, 70368744161280) == 9306717745644682924);
    lemma_fmul_literal(9306717745644682924, 9306717745644682924, 4695408299218975106, 12380578893860276750);
    assert(fpow_fast(7, 140737488322560) == 12380578893860276750);
    lemma_fmul_literal(12380578893860276750, 12380578893860276750, 8309256808156222390, 6115771955107415310);
    assert(fpow_fast(7, 281474976645120) == 6115771955107415310);
    lemma_fmul_literal(6115771955107415310, 6115771955107415310, 2027602620068516376, 17776499369601055404);
    assert(fpow_fast(7, 562949953290240) == 17776499369601055404);
    lemma_fmul_literal(17776499369601055404, 17776499369601055404, 17130607366173278638, 16207902636198568418);
    assert(fpow_fast(7, 1125899906580480) == 16207902636198568418);
    lemma_fmul_literal(16207902636198568418, 16207902636198568418, 14240784545824149997, 1532612707718625687);
    assert(fpow_fast(7, 2251799813160960) == 1532612707718625687);
    lemma_fmul_literal(1532612707718625687, 1532612707718625687, 127334216977357403, 17492915097719143606);
    assert(fpow_fast(7, 4503599626321920) == 17492915097719143606);
    lemma_fmul_literal(17492915097719143606, 17492915097719143606, 16588405924890216597, 455906449640507599);
    assert(fpow_fast(7, 9007199252643840) == 455906449640507599);
    lemma_fmul_literal(455906449640507599, 455906449640507599, 11267608529812975, 11353340290879379826);
    assert(fpow_fast(7, 18014398505287680) == 11353340290879379826);
    lemma_fmul_literal(11353340290879379826, 11353340290879379826, 6987592784692205430, 1803076106186727246);
    assert(fpow_fast(7, 36028797010575360) == 1803076106186727246);
    lemma_fmul_literal(1803076106186727246, 1803076106186727246, 176241586724885086, 13797081185216407910);
    assert(fpow_fast(7, 72057594021150720) == 13797081185216407910);
    lemma_fmul_literal(13797081185216407910, 13797081185216407910, 10319406422896923811, 17870292113338400769);
    assert(fpow_fast(7, 144115188042301440) == 17870292113338400769);
    lemma_fmul_literal(17870292113338400769, 17870292113338400769, 17311854006015885313, 549755813888);
    assert(fpow_fast(7, 288230376084602880) == 549755813888);
    lemma_fmul_literal(549755813888, 549755813888, 16384, 70368744161280);
    assert(fpow_fast(7, 576460752169205760) == 70368744161280);
    lemma_fmul_literal(70368744161280, 70368744161280, 268435455, 17293822564807737345);
    assert(fpow_fast(7, 1152921504338411520) == 17293822564807737345);
    lemma_fmul_literal(17293822564807737345, 17293822564807737345, 16212958654255595520, 18446744069397807105);
    assert(fpow_fast(7, 2305843008676823040) == 18446744069397807105);
    lemma_fmul_literal(18446744069397807105, 18446744069397807105, 18446744069381029889, 281474976710656);
    assert(fpow_fast(7, 4611686017353646080) == 281474976710656);
    lemma_fmul_literal(281474976710656, 281474976710656, 4294967296, 18446744069414584320);
    assert(fpow_fast(7, 9223372034707292160) == 18446744069414584320);
}

/// `7^((P - 1) / 3) != 1`.
proof fn lemma_generator_power_3()
    ensures
        fpow(7, 6148914689804861440) == 18446744065119617025,
{
    lemma_powers_3_by_squaring();
    lemma_fpow_fast_is_fpow(7, 6148914689804861440);
}

/// The squarings along the binary digits of the exponent, each reduced modulo `P`.
proof fn lemma_powers_3_by_squaring()
    ensures
        fpow_fast(7, 6148914689804861440) == 18446744065119617025,
{
    assert(fpow_fast(7, 0) == 1);
    lemma_fmul_literal(1, 1, 0, 1);
    lemma_fmul_literal(1, 7, 0, 7);
    assert(fpow_fast(7, 1) == 7);
    lemma_fmul_literal(7, 7, 0, 49);
    assert(fpow_fast(7, 2) == 49);
    lemma_fmul_literal(49, 49, 0, 2401);
    lemma_fmul_literal(2401, 7, 0, 16807);
    assert(fpow_fast(7, 5) == 16807);
    lemma_fmul_literal(16807, 16807, 0, 282475249);
    assert(fpow_fast(7, 10) == 282475249);
    lemma_fmul_literal(282475249, 282475249, 0, 79792266297612001);
    lemma_fmul_literal(79792266297612001, 7, 0, 558545864083284007);
    assert(fpow_fast(7, 21) == 558545864083284007);
    lemma_fmul_literal(558545864083284007, 558545864083284007, 16912116366476102, 8022122801911579307);
    assert(fpow_fast(7, 42) == 8022122801911579307);
    lemma_fmul_literal(8022122801911579307, 8022122801911579307, 3488661956103780069, 4463956420510902100);
    lemma_fmul_literal(4463956420510902100, 7, 1, 12800950874161730379);
    assert(fpow_fast(7, 85) == 12800950874161730379);
    lemma_fmul_literal(12800950874161730379, 12800950874161730379, 8883103851069056297, 14271156885488964304);
    assert(fpow_fast(7, 170) == 14271156885488964304);
    lemma_fmul_literal(14271156885488964304, 14271156885488964304, 11040751586504908066, 6640181542876171230);
    lemma_fmul_literal(6640181542876171230, 7, 2, 9587782661304029968);
    assert(fpow_fast(7, 341) == 9587782661304029968);
    lemma_fmul_literal(9587782661304029968, 9587782661304029968, 4983295481006772960, 10276868313419320864);
    assert(fpow_fast(7, 682) == 10276868313419320864);
    lemma_fmul_literal(10276868313419320864, 10276868313419320864, 5725347624162803535, 12692611838971331761);
    lemma_fmul_literal(12692611838971331761, 7, 4, 15061306595140985043);
    assert(fpow_fast(7, 1365) == 15061306595140985043);
    lemma_fmul_literal(15061306595140985043, 15061306595140985043, 12297181307402195377, 10087193495066827832);
    assert(fpow_fast(7, 2730) == 10087193495066827832);
    lemma_fmul_literal(10087193495066827832, 10087193495066827832, 5515958383985302078, 17666492521142301186);
    lemma_fmul_literal(17666492521142301186, 7, 6, 12984983231508602376);
    assert(fpow_fast(7, 5461) == 12984983231508602376);
    lemma_fmul_literal(12984983231508602376, 12984983231508602376, 9140355007262292068, 1362657970957379548);
    assert(fpow_fast(7, 10922) == 1362657970957379548);
    lemma_fmul_literal(1362657970957379548, 1362657970957379548, 100659321711542029, 14866894507972756995);
    lemma_fmul_literal(14866894507972756995, 7, 5, 11834541208736377360);
    assert(fpow_fast(7, 21845) == 11834541208736377360);
    lemma_fmul_literal(11834541208736377360, 11834541208736377360, 7592470795618526035, 15486580570079272365);
    assert(fpow_fast(7, 43690) == 15486580570079272365);
    lemma_fmul_literal(15486580570079272365, 15486580570079272365, 13001436830861181108, 8219357140934485557);
    lemma_fmul_literal(8219357140934485557, 7, 3, 2195267778297645936);
    assert(fpow_fast(7, 87381) == 2195267778297645936);
    lemma_fmul_literal(2195267778297645936, 2195267778297645936, 261249389068193530, 12545318111885672966);
    assert(fpow_fast(7, 174762) == 12545318111885672966);
    lemma_fmul_literal(12545318111885672966, 12545318111885672966, 8531858301723670530, 16274283408395477026);
    lemma_fmul_literal(16274283408395477026, 7, 6, 3239519442280833256);
    assert(fpow_fast(7, 349525) == 3239519442280833256);
    lemma_fmul_literal(3239519442280833256, 3239519442280833256, 568907237907408565, 11109814195885452171);
    assert(fpow_fast(7, 699050) == 11109814195885452171);
    lemma_fmul_literal(11109814195885452171, 11109814195885452171, 6691043742063200757, 8592128779201082244);
    lemma_fmul_literal(8592128779201082244, 7, 3, 4804669246163822745);
    assert(fpow_fast(7, 1398101) == 4804669246163822745);
    lemma_fmul_literal(4804669246163822745, 4804669246163822745, 1251432040156506853, 438903447396483212);
    assert(fpow_fast(7, 2796202) == 438903447396483212);
    lemma_fmul_literal(438903447396483212, 438903447396483212, 10442831288363556, 16528309341332431468);
    lemma_fmul_literal(16528309341332431468, 7, 6, 5017700972839514350);
    assert(fpow_fast(7, 5592405) == 5017700972839514350);
    lemma_fmul_literal(5017700972839514350, 5017700972839514350, 1364865417880415269, 7499557959359525151);
    assert(fpow_fast(7, 11184810) == 7499557959359525151);
    lemma_fmul_literal(7499557959359525151, 7499557959359525151, 3048959175350976374, 6501481669499740747);
    lemma_fmul_literal(6501481669499740747, 7, 2, 8616883547669016587);
    assert(fpow_fast(7, 22369621) == 8616883547669016587);
    lemma_fmul_literal(8616883547669016587, 8616883547669016587, 4025137541600063836, 458110968676413213);
    assert(fpow_fast(7, 44739242) == 458110968676413213);
    lemma_fmul_literal(458110968676413213, 458110968676413213, 11376840207243241, 1678842135369159008);
    lemma_fmul_literal(1678842135369159008, 7, 0, 11751894947584113056);
    assert(fpow_fast(7, 89478485) == 11751894947584113056);
    lemma_fmul_literal(11751894947584113056, 11751894947584113056, 7486797363228983743, 525895266577965633);
    assert(fpow_fast(7, 178956970) == 525895266577965633);
    lemma_fmul_literal(525895266577965633, 525895266577965633, 14992663765941567, 8359630718448719682);
    lemma_fmul_literal(8359630718448719682, 7, 3, 3177182820897284811);
    assert(fpow_fast(7, 357913941) == 3177182820897284811);
    lemma_fmul_literal(3177182820897284811, 3177182820897284811, 547223436256259685, 7964267603545906836);
    assert(fpow_fast(7, 715827882) == 7964267603545906836);
    lemma_fmul_literal(7964267603545906836, 7964267603545906836, 3438523254955302650, 17834245605091780246);
    lemma_fmul_literal(17834245605091780246, 7, 6, 14159254819154955796);
    assert(fpow_fast(7, 1431655765) == 14159254819154955796);
    lemma_fmul_literal(14159254819154955796, 14159254819154955796, 10868286364213937143, 998724450546658713);
    assert(fpow_fast(7, 2863311530) == 998724450546658713);
    lemma_fmul_literal(998724450546658713, 998724450546658713, 54071901489300593, 1811047956385014016);
    assert(fpow_fast(7, 5726623060) == 1811047956385014016);
    lemma_fmul_literal(1811047956385014016, 1811047956385014016, 177803448022273372, 2957134717709447844);
    assert(fpow_fast(7, 11453246120) == 2957134717709447844);
    lemma_fmul_literal(2957134717709447844, 2957134717709447844, 474048195485158646, 8418656202527058970);
    assert(fpow_fast(7, 22906492240) == 8418656202527058970);
    lemma_fmul_literal(8418656202527058970, 8418656202527058970, 3842074893523284633, 9344165103595421707);
    assert(fpow_fast(7, 45812984480) == 9344165103595421707);
    lemma_fmul_literal(9344165103595421707, 9344165103595421707, 4733270064066182308, 12398472707942400981);
    assert(fpow_fast(7, 91625968960) == 12398472707942400981);
    lemma_fmul_literal(12398472707942400981, 12398472707942400981, 8333293122685526258, 10977358340789161543);
    assert(fpow_fast(7, 183251937920) == 10977358340789161543);
    lemma_fmul_literal(10977358340789161543, 10977358340789161543, 6532447985869279269, 14519574879452399500);
    assert(fpow_fast(7, 366503875840) == 14519574879452399500);
    lemma_fmul_literal(14519574879452399500, 14519574879452399500, 11428469646823455213, 3056692624244734627);
    assert(fpow_fast(7, 733007751680) == 3056692624244734627);
    lemma_fmul_literal(3056692624244734627, 3056692624244734627, 506505091844572788, 17973258314804772181);
    assert(fpow_fast(7, 1466015503360) == 17973258314804772181);
    lemma_fmul_literal(17973258314804772181, 17973258314804772181, 17511925857219887972, 15462695660743809749);
    assert(fpow_fast(7, 2932031006720) == 15462695660743809749);
    lemma_fmul_literal(15462695660743809749, 15462695660743809749, 12961363598750965303, 18046908317468628738);
    assert(fpow_fast(7, 5864062013440) == 18046908317468628738);
    lemma_fmul_literal(18046908317468628738, 18046908317468628738, 17655739061243143202, 9144605907772536802);
    assert(fpow_fast(7, 11728124026880) == 9144605907772536802);
    lemma_fmul_literal(9144605907772536802, 9144605907772536802, 4533256215503087484, 8796482344486648840);
    assert(fpow_fast(7, 23456248053760) == 8796482344486648840);
    lemma_fmul_literal(8796482344486648840, 8796482344486648840, 4194675295851326834, 3596945015050375886);
    assert(fpow_fast(7, 46912496107520) == 3596945015050375886);
    lemma_fmul_literal(3596945015050375886, 3596945015050375886, 701371114198276100, 4201997653601256896);
    assert(fpow_fast(7, 93824992215040) == 4201997653601256896);
    lemma_fmul_literal(4201997653601256896, 4201997653601256896, 957176194044243304, 6905479200839918232);
    assert(fpow_fast(7, 187649984430080) == 6905479200839918232);
    lemma_fmul_literal(6905479200839918232, 6905479200839918232, 2585043887083431574, 1725491680989254570);
    assert(fpow_fast(7, 375299968860160) == 1725491680989254570);
    lemma_fmul_literal(1725491680989254570, 1725491680989254570, 161400924193426514, 12370230134295797906);
    assert(fpow_fast(7, 750599937720320) == 12370230134295797906);
    lemma_fmul_literal(12370230134295797906, 12370230134295797906, 8295371421624329761, 3734230229149707555);
    assert(fpow_fast(7, 1501199875440640) == 3734230229149707555);
    lemma_fmul_literal(3734230229149707555, 3734230229149707555, 755931526551395991, 16496341184493220914);
    assert(fpow_fast(7, 3002399750881280) == 16496341184493220914);
    lemma_fmul_literal(16496341184493220914, 16496341184493220914, 14752157424160725999, 15331777707844533717);
    assert(fpow_fast(7, 6004799501762560) == 15331777707844533717);
    lemma_fmul_literal(15331777707844533717, 15331777707844533717, 12742812867041550857, 11895029263313522992);
    assert(fpow_fast(7, 12009599003525120) == 11895029263313522992);
    lemma_fmul_literal(11895029263313522992, 11895029263313522992, 7670281576122899860, 11373273867503537004);
    assert(fpow_fast(7, 24019198007050240) == 11373273867503537004);
    lemma_fmul_literal(11373273867503537004, 11373273867503537004, 7012151194730804623, 13835058050987180033);
    assert(fpow_fast(7, 48038396014100480) == 13835058050987180033);
    lemma_fmul_literal(13835058050987180033, 13835058050987180033, 10376293537435066369, 35184372080640);
    assert(fpow_fast(7, 96076792028200960) == 35184372080640);
    lemma_fmul_literal(35184372080640, 35184372080640, 67108863, 18158513693262872577);
    assert(fpow_fast(7, 192153584056401920) == 18158513693262872577);
    lemma_fmul_literal(18158513693262872577, 18158513693262872577, 17874786916739579904, 18446744069413535745);
    assert(fpow_fast(7, 384307168112803840) == 18446744069413535745);
    lemma_fmul_literal(18446744069413535745, 18446744069413535745, 18446744069412487169, 1099511627776);
    assert(fpow_fast(7, 768614336225607680) == 1099511627776);
    lemma_fmul_literal(1099511627776, 1099511627776, 65536, 281474976645120);
    assert(fpow_fast(7, 1537228672451215360) == 281474976645120);
    lemma_fmul_literal(281474976645120, 281474976645120, 4294967294, 18446744065119617026);
    assert(fpow_fast(7, 3074457344902430720) == 18446744065119617026);
    lemma_fmul_literal(18446744065119617026, 18446744065119617026, 18446744060824649731, 18446744065119617025);
    assert(fpow_fast(7, 6148914689804861440) == 18446744065119617025);
}

/// `7^((P - 1) / 5) != 1`.
proof fn lemma_generator_power_5()
    ensures
        fpow(7, 3689348813882916864) == 1373043270956696022,
{
    lemma_powers_5_by_squaring();
    lemma_fpow_fast_is_fpow(7, 3689348813882916864);
}

/// The squarings along the binary digits of the exponent, each reduced modulo `P`.
proof fn lemma_powers_5_by_squaring()
    ensures
        fpow_fast(7, 3689348813882916864) == 1373043270956696022,
{
    assert(fpow_fast(7, 0) == 1);
    lemma_fmul_literal(1, 1, 0, 1);
    lemma_fmul_literal(1, 7, 0, 7);
    assert(fpow_fast(7, 1) == 7);
    lemma_fmul_literal(7, 7, 0, 49);
    lemma_fmul_literal(49, 7, 0, 343);
    assert(fpow_fast(7, 3) == 343);
    lemma_fmul_literal(343, 343, 0, 117649);
    assert(fpow_fast(7, 6) == 117649);
    lemma_fmul_literal(117649, 117649, 0, 13841287201);
    assert(fpow_fast(7, 12) == 13841287201);
    lemma_fmul_literal(13841287201, 13841287201, 10, 7113790686420571191);
    lemma_fmul_literal(7113790686420571191, 7, 2, 12903046666114829695);
    assert(fpow_fast(7, 25) == 12903046666114829695);
    lemma_fmul_literal(12903046666114829695, 12903046666114829695, 9025365812061196555, 9508792519651578870);
    lemma_fmul_literal(9508792519651578870, 7, 3, 11221315429317299127);
    assert(fpow_fast(7, 51) == 11221315429317299127);
    lemma_fmul_literal(11221315429317299127, 11221315429317299127, 6826024120593252355, 3745031562215636174);
    assert(fpow_fast(7, 102) == 3745031562215636174);
    lemma_fmul_literal(3745031562215636174, 3745031562215636174, 760310944262826016, 14721374862152863140);
    assert(fpow_fast(7, 204) == 14721374862152863140);
    lemma_fmul_literal(14721374862152863140, 14721374862152863140, 11748353910940550106, 8580336748508171574);
    lemma_fmul_literal(8580336748508171574, 7, 3, 4722125031313448055);
    assert(fpow_fast(7, 409) == 4722125031313448055);
    lemma_fmul_literal(4722125031313448055, 4722125031313448055, 1208802199859689631, 1883594833244407474);
    lemma_fmul_literal(1883594833244407474, 7, 0, 13185163832710852318);
    assert(fpow_fast(7, 819) == 13185163832710852318);
    lemma_fmul_literal(13185163832710852318, 13185163832710852318, 9424348526831569695, 2814030611640221029);
    assert(fpow_fast(7, 1638) == 2814030611640221029);
    lemma_fmul_literal(2814030611640221029, 2814030611640221029, 429277288905301222, 15305242945550478579);
    assert(fpow_fast(7, 3276) == 15305242945550478579);
    lemma_fmul_literal(15305242945550478579, 15305242945550478579, 12698742972789383586, 16390917471927504135);
    lemma_fmul_literal(16390917471927504135, 7, 6, 4055957887005023019);
    assert(fpow_fast(7, 6553) == 4055957887005023019);
    lemma_fmul_literal(4055957887005023019, 4055957887005023019, 891799350565843482, 2270837492942628639);
    lemma_fmul_literal(2270837492942628639, 7, 0, 15895862450598400473);
    assert(fpow_fast(7, 13107) == 15895862450598400473);
    lemma_fmul_literal(15895862450598400473, 15895862450598400473, 13697725847852728906, 15907429390595540903);
    assert(fpow_fast(7, 26214) == 15907429390595540903);
    lemma_fmul_literal(15907429390595540903, 15907429390595540903, 13717667945333691601, 9571849187322067488);
    assert(fpow_fast(7, 52428) == 9571849187322067488);
    lemma_fmul_literal(9571849187322067488, 9571849187322067488, 4966746246387627957, 4541341506473167947);
    lemma_fmul_literal(4541341506473167947, 7, 1, 13342646475897591308);
    assert(fpow_fast(7, 104857) == 13342646475897591308);
    lemma_fmul_literal(13342646475897591308, 13342646475897591308, 9650820454323794076, 6980271831054868468);
    lemma_fmul_literal(6980271831054868468, 7, 2, 11968414678554910634);
    assert(fpow_fast(7, 209715) == 11968414678554910634);
    lemma_fmul_literal(11968414678554910634, 11968414678554910634, 7765215876516170691, 9815939365277946145);
    assert(fpow_fast(7, 419430) == 9815939365277946145);
    lemma_fmul_literal(9815939365277946145, 9815939365277946145, 5223288470867314591, 15620185229717233314);
    assert(fpow_fast(7, 838860) == 15620185229717233314);
    lemma_fmul_literal(15620185229717233314, 15620185229717233314, 13226734522501539462, 10616950601403447294);
    lemma_fmul_literal(10616950601403447294, 7, 4, 531677932165793774);
    assert(fpow_fast(7, 1677721) == 531677932165793774);
    lemma_fmul_literal(531677932165793774, 531677932165793774, 15324190680391730, 16662824208101097746);
    lemma_fmul_literal(16662824208101097746, 7, 6, 5959305040220178296);
    assert(fpow_fast(7, 3355443) == 5959305040220178296);
    lemma_fmul_literal(5959305040220178296, 5959305040220178296, 1925180748903871568, 6422988881738978288);
    assert(fpow_fast(7, 6710886) == 6422988881738978288);
    lemma_fmul_literal(6422988881738978288, 6422988881738978288, 2236426440335590882, 6417963550187649822);
    assert(fpow_fast(7, 13421772) == 6417963550187649822);
    lemma_fmul_literal(6417963550187649822, 6417963550187649822, 2232928259672247577, 14252887398442191467);
    lemma_fmul_literal(14252887398442191467, 7, 5, 7536491442022418664);
    assert(fpow_fast(7, 26843545) == 7536491442022418664);
    lemma_fmul_literal(7536491442022418664, 7536491442022418664, 3079063873925133703, 11420510904403074233);
    lemma_fmul_literal(11420510904403074233, 7, 4, 6156600053163182347);
    assert(fpow_fast(7, 53687091) == 6156600053163182347);
    lemma_fmul_literal(6156600053163182347, 6156600053163182347, 2054765007416931727, 774671493430776042);
    assert(fpow_fast(7, 107374182) == 774671493430776042);
    lemma_fmul_literal(774671493430776042, 774671493430776042, 32532349366156400, 5396215078887381364);
    assert(fpow_fast(7, 214748364) == 5396215078887381364);
    lemma_fmul_literal(5396215078887381364, 5396215078887381364, 1578551589811028170, 12728759107003177926);
    lemma_fmul_literal(12728759107003177926, 7, 4, 15314337471363908198);
    assert(fpow_fast(7, 429496729) == 15314337471363908198);
    lemma_fmul_literal(15314337471363908198, 15314337471363908198, 12713838892342998846, 5793645042898913638);
    lemma_fmul_literal(5793645042898913638, 7, 2, 3662027161463226824);
    assert(fpow_fast(7, 858993459) == 3662027161463226824);
    lemma_fmul_literal(3662027161463226824, 3662027161463226824, 726981568174377818, 11820361339200135398);
    assert(fpow_fast(7, 1717986918) == 11820361339200135398);
    lemma_fmul_literal(11820361339200135398, 11820361339200135398, 7574287454929238631, 10563623981652513853);
    assert(fpow_fast(7, 3435973836) == 10563623981652513853);
    lemma_fmul_literal(10563623981652513853, 10563623981652513853, 6049314242439396175, 11556889392494533434);
    assert(fpow_fast(7, 6871947672) == 11556889392494533434);
    lemma_fmul_literal(11556889392494533434, 11556889392494533434, 7240393856377241219, 5123117391711505057);
    assert(fpow_fast(7, 13743895344) == 5123117391711505057);
    lemma_fmul_literal(5123117391711505057, 5123117391711505057, 1422816498699861553, 18163573378392062736);
    assert(fpow_fast(7, 27487790688) == 18163573378392062736);
    lemma_fmul_literal(18163573378392062736, 18163573378392062736, 17884749559638838976, 17372647198866510400);
    assert(fpow_fast(7, 54975581376) == 17372647198866510400);
    lemma_fmul_literal(17372647198866510400, 17372647198866510400, 16361091668024776241, 1220884775256242639);
    assert(fpow_fast(7, 109951162752) == 1220884775256242639);
    lemma_fmul_literal(1220884775256242639, 1220884775256242639, 80803399713442746, 1436240010618898855);
    assert(fpow_fast(7, 219902325504) == 1436240010618898855);
    lemma_fmul_literal(1436240010618898855, 1436240010618898855, 111823818899442134, 968157462317130011);
    assert(fpow_fast(7, 439804651008) == 968157462317130011);
    lemma_fmul_literal(968157462317130011, 968157462317130011, 50812699970965205, 993397133647309316);
    assert(fpow_fast(7, 879609302016) == 993397133647309316);
    lemma_fmul_literal(993397133647309316, 993397133647309316, 53496587876171898, 14359758886168776598);
    assert(fpow_fast(7, 1759218604032) == 14359758886168776598);
    lemma_fmul_literal(14359758886168776598, 14359758886168776598, 11178269427546032934, 11469785989846425790);
    assert(fpow_fast(7, 3518437208064) == 11469785989846425790);
    lemma_fmul_literal(11469785989846425790, 11469785989846425790, 7131664545127087118, 7202858824453247222);
    assert(fpow_fast(7, 7036874416128) == 7202858824453247222);
    lemma_fmul_literal(7202858824453247222, 7202858824453247222, 2812484146241558757, 8980223327998268287);
    assert(fpow_fast(7, 14073748832256) == 8980223327998268287);
    lemma_fmul_literal(8980223327998268287, 8980223327998268287, 4371742282392037313, 2898061628613144896);
    assert(fpow_fast(7, 28147497664512) == 2898061628613144896);
    lemma_fmul_literal(2898061628613144896, 2898061628613144896, 455297757242989289, 5148563552100513047);
    assert(fpow_fast(7, 56294995329024) == 5148563552100513047);
    lemma_fmul_literal(5148563552100513047, 5148563552100513047, 1436985657212464717, 10405746850183322052);
    assert(fpow_fast(7, 112589990658048) == 10405746850183322052);
    lemma_fmul_literal(10405746850183322052, 10405746850183322052, 5869847117878750337, 8376609452955824527);
    assert(fpow_fast(7, 225179981316096) == 8376609452955824527);
    lemma_fmul_literal(8376609452955824527, 8376609452955824527, 3803792455910387527, 17819501121686609562);
    assert(fpow_fast(7, 450359962632192) == 17819501121686609562);
    lemma_fmul_literal(17819501121686609562, 17819501121686609562, 17213586258415924325, 12701195747762323519);
    assert(fpow_fast(7, 900719925264384) == 12701195747762323519);
    lemma_fmul_literal(12701195747762323519, 12701195747762323519, 8745194968604305178, 16093963071722629223);
    assert(fpow_fast(7, 1801439850528768) == 16093963071722629223);
    lemma_fmul_literal(16093963071722629223, 16093963071722629223, 14041266381715007150, 18098504255140688579);
    assert(fpow_fast(7, 3602879701057536) == 18098504255140688579);
    lemma_fmul_literal(18098504255140688579, 18098504255140688579, 17756838553229884021, 3705545293506004500);
    assert(fpow_fast(7, 7205759402115072) == 3705545293506004500);
    lemma_fmul_literal(3705545293506004500, 3705545293506004500, 744362575344184441, 12143967077249500439);
    assert(fpow_fast(7, 14411518804230144) == 12143967077249500439);
    lemma_fmul_literal(12143967077249500439, 12143967077249500439, 7994686532125774161, 8898934198923663040);
    assert(fpow_fast(7, 28823037608460288) == 8898934198923663040);
    lemma_fmul_literal(8898934198923663040, 8898934198923663040, 4292954332687627470, 14017153681711143730);
    assert(fpow_fast(7, 57646075216920576) == 14017153681711143730);
    lemma_fmul_literal(14017153681711143730, 14017153681711143730, 10651234526665370023, 13369903252519103517);
    assert(fpow_fast(7, 115292150433841152) == 13369903252519103517);
    lemma_fmul_literal(13369903252519103517, 13369903252519103517, 9690290726052977176, 2271703332821311793);
    assert(fpow_fast(7, 230584300867682304) == 2271703332821311793);
    lemma_fmul_literal(2271703332821311793, 2271703332821311793, 279758639949257494, 14026992134716723275);
    assert(fpow_fast(7, 461168601735364608) == 14026992134716723275);
    lemma_fmul_literal(14026992134716723275, 14026992134716723275, 10666191692529345819, 2281812832982421726);
    assert(fpow_fast(7, 922337203470729216) == 2281812832982421726);
    lemma_fmul_literal(2281812832982421726, 2281812832982421726, 282254135752667881, 2625919085333925275);
    assert(fpow_fast(7, 1844674406941458432) == 2625919085333925275);
    lemma_fmul_literal(2625919085333925275, 2625919085333925275, 373803150126307843, 1373043270956696022);
    assert(fpow_fast(7, 3689348813882916864) == 1373043270956696022);
}

/// `7^((P - 1) / 17) != 1`.
proof fn lemma_generator_power_17()
    ensures
        fpow(7, 1085102592318504960) == 16301593560560007290,
{
    lemma_powers_17_by_squaring();
    lemma_fpow_fast_is_fpow(7, 1085102592318504960);
}

/// The squarings along the binary digits of the exponent, each reduced modulo `P`.
proof fn lemma_powers_17_by_squaring()
    ensures
        fpow_fast(7, 1085102592318504960) == 16301593560560007290,
{
    assert(fpow_fast(7, 0) == 1);
    lemma_fmul_literal(1, 1, 0, 1);
    lemma_fmul_literal(1, 7, 0, 7);
    assert(fpow_fast(7, 1) == 7);
    lemma_fmul_literal(7, 7, 0, 49);
    lemma_fmul_literal(49, 7, 0, 343);
    assert(fpow_fast(7, 3) == 343);
    lemma_fmul_literal(343, 343, 0, 117649);
    lemma_fmul_literal(117649, 7, 0, 823543);
    assert(fpow_fast(7, 7) == 823543);
    lemma_fmul_literal(823543, 823543, 0, 678223072849);
    lemma_fmul_literal(678223072849, 7, 0, 4747561509943);
    assert(fpow_fast(7, 15) == 4747561509943);
    lemma_fmul_literal(4747561509943, 4747561509943, 1221860, 1582037354089406189);
    assert(fpow_fast(7, 30) == 1582037354089406189);
    lemma_fmul_literal(1582037354089406189, 1582037354089406189, 135679347006500643, 6704211459967285318);
    assert(fpow_fast(7, 60) == 6704211459967285318);
    lemma_fmul_literal(6704211459967285318, 6704211459967285318, 2436552007813651802, 12536486945555764682);
    assert(fpow_fast(7, 120) == 12536486945555764682);
    lemma_fmul_literal(12536486945555764682, 12536486945555764682, 8519850676340941968, 8329639379454877396);
    assert(fpow_fast(7, 240) == 8329639379454877396);
    lemma_fmul_literal(8329639379454877396, 8329639379454877396, 3761254123257716564, 9634757967695347772);
    lemma_fmul_literal(9634757967695347772, 7, 3, 12103073565623681441);
    assert(fpow_fast(7, 481) == 12103073565623681441);
    lemma_fmul_literal(12103073565623681441, 12103073565623681441, 7940934681138419546, 7391097021356298215);
    lemma_fmul_literal(7391097021356298215, 7, 2, 14844191010664918863);
    assert(fpow_fast(7, 963) == 14844191010664918863);
    lemma_fmul_literal(14844191010664918863, 14844191010664918863, 11945197804660499710, 12415576456582165859);
    lemma_fmul_literal(12415576456582165859, 7, 4, 13122058918416823729);
    assert(fpow_fast(7, 1927) == 13122058918416823729);
    lemma_fmul_literal(13122058918416823729, 13122058918416823729, 9334353510324761538, 7897896591338819743);
    lemma_fmul_literal(7897896591338819743, 7, 2, 18391788000542569559);
    assert(fpow_fast(7, 3855) == 18391788000542569559);
    lemma_fmul_literal(18391788000542569559, 18391788000542569559, 18336995655387569616, 5815952681263863745);
    assert(fpow_fast(7, 7710) == 5815952681263863745);
    lemma_fmul_literal(5815952681263863745, 5815952681263863745, 1833673490748103986, 15534263258852221519);
    assert(fpow_fast(7, 15420) == 15534263258852221519);
    lemma_fmul_literal(15534263258852221519, 15534263258852221519, 13081622105628542398, 9621442331152125603);
    assert(fpow_fast(7, 30840) == 9621442331152125603);
    lemma_fmul_literal(9621442331152125603, 9621442331152125603, 5018346445494100015, 13847347385863248794);
    assert(fpow_fast(7, 61680) == 13847347385863248794);
    lemma_fmul_literal(13847347385863248794, 13847347385863248794, 10394735726978565456, 17205675455212639060);
    lemma_fmul_literal(17205675455212639060, 7, 6, 9759263770000967494);
    assert(fpow_fast(7, 123361) == 9759263770000967494);
    lemma_fmul_literal(9759263770000967494, 9759263770000967494, 5163145809041198643, 14407346328610363633);
    lemma_fmul_literal(14407346328610363633, 7, 5, 8617703953199623826);
    assert(fpow_fast(7, 246723) == 8617703953199623826);
    lemma_fmul_literal(8617703953199623826, 8617703953199623826, 4025904037348594906, 18431779654498809450);
    lemma_fmul_literal(18431779654498809450, 7, 6, 18341993165004160224);
    assert(fpow_fast(7, 493447) == 18341993165004160224);
    lemma_fmul_literal(18341993165004160224, 18341993165004160224, 18237837094670335858, 18143715114932847758);
    lemma_fmul_literal(18143715114932847758, 7, 6, 16325541388042428380);
    assert(fpow_fast(7, 986895) == 16325541388042428380);
    lemma_fmul_literal(16325541388042428380, 16325541388042428380, 14448257134688188654, 87681681590930466);
    assert(fpow_fast(7, 1973790) == 87681681590930466);
    lemma_fmul_literal(87681681590930466, 87681681590930466, 416771504916168, 1247600097974775228);
    assert(fpow_fast(7, 3947580) == 1247600097974775228);
    lemma_fmul_literal(1247600097974775228, 1247600097974775228, 84378359596120594, 263672500424845310);
    assert(fpow_fast(7, 7895160) == 263672500424845310);
    lemma_fmul_literal(263672500424845310, 263672500424845310, 3768859546089880, 14075661776324224620);
    assert(fpow_fast(7, 15790320) == 14075661776324224620);
    lemma_fmul_literal(14075661776324224620, 14075661776324224620, 10740337356876572541, 1097754007496414739);
    lemma_fmul_literal(1097754007496414739, 7, 0, 7684278052474903173);
    assert(fpow_fast(7, 31580641) == 7684278052474903173);
    lemma_fmul_literal(7684278052474903173, 7684278052474903173, 3201005498073319860, 16912746553351552869);
    lemma_fmul_literal(16912746553351552869, 7, 6, 7708761456973364157);
    assert(fpow_fast(7, 63161283) == 7708761456973364157);
    lemma_fmul_literal(7708761456973364157, 7708761456973364157, 3221435879248038117, 7915739019813757092);
    lemma_fmul_literal(7915739019813757092, 7, 3, 69940930452546681);
    assert(fpow_fast(7, 126322567) == 69940930452546681);
    lemma_fmul_literal(69940930452546681, 69940930452546681, 265181418149485, 10242565372168891076);
    lemma_fmul_literal(10242565372168891076, 7, 3, 16357725396938484569);
    assert(fpow_fast(7, 252645135) == 16357725396938484569);
    lemma_fmul_literal(16357725396938484569, 16357725396938484569, 14505279585100132017, 9635924811972810304);
    assert(fpow_fast(7, 505290270) == 9635924811972810304);
    lemma_fmul_literal(9635924811972810304, 9635924811972810304, 5033465343943480489, 17792655913659759447);
    assert(fpow_fast(7, 1010580540) == 17792655913659759447);
    lemma_fmul_literal(17792655913659759447, 17792655913659759447, 17161760539996388258, 757864979510442991);
    assert(fpow_fast(7, 2021161080) == 757864979510442991);
    lemma_fmul_literal(757864979510442991, 757864979510442991, 31136081522412086, 5359388630104522475);
    assert(fpow_fast(7, 4042322160) == 5359388630104522475);
    lemma_fmul_literal(5359388630104522475, 5359388630104522475, 1557079470523882470, 16844089689671372755);
    assert(fpow_fast(7, 8084644320) == 16844089689671372755);
    lemma_fmul_literal(16844089689671372755, 16844089689671372755, 15380674031474082800, 3416859319420511225);
    assert(fpow_fast(7, 16169288640) == 3416859319420511225);
    lemma_fmul_literal(3416859319420511225, 3416859319420511225, 632899093996120487, 13225002848613916298);
    assert(fpow_fast(7, 32338577280) == 13225002848613916298);
    lemma_fmul_literal(13225002848613916298, 13225002848613916298, 9481385966417690571, 3046446182183887513);
    assert(fpow_fast(7, 64677154560) == 3046446182183887513);
    lemma_fmul_literal(3046446182183887513, 3046446182183887513, 503115037863552653, 8471950025145571556);
    assert(fpow_fast(7, 129354309120) == 8471950025145571556);
    lemma_fmul_literal(8471950025145571556, 8471950025145571556, 3890872934458282888, 14240312891968862088);
    assert(fpow_fast(7, 258708618240) == 14240312891968862088);
    lemma_fmul_literal(14240312891968862088, 14240312891968862088, 10993078805565609884, 14284159170854690980);
    assert(fpow_fast(7, 517417236480) == 14284159170854690980);
    lemma_fmul_literal(14284159170854690980, 14284159170854690980, 11060878952433332310, 2140736107784648890);
    assert(fpow_fast(7, 1034834472960) == 2140736107784648890);
    lemma_fmul_literal(2140736107784648890, 2140736107784648890, 248431434074663970, 720221585272617730);
    assert(fpow_fast(7, 2069668945920) == 720221585272617730);
    lemma_fmul_literal(720221585272617730, 720221585272617730, 28119820491934886, 14933742682021830494);
    assert(fpow_fast(7, 4139337891840) == 14933742682021830494);
    lemma_fmul_literal(14933742682021830494, 14933742682021830494, 12089757935255948337, 16866753830962059859);
    assert(fpow_fast(7, 8278675783680) == 16866753830962059859);
    lemma_fmul_literal(16866753830962059859, 16866753830962059859, 15422092035524275423, 4185523320037657098);
    assert(fpow_fast(7, 16557351567360) == 4185523320037657098);
    lemma_fmul_literal(4185523320037657098, 4185523320037657098, 949685505293347548, 17086191566025186696);
    assert(fpow_fast(7, 33114703134720) == 17086191566025186696);
    lemma_fmul_literal(17086191566025186696, 17086191566025186696, 15825987563569802540, 1098680059505421076);
    assert(fpow_fast(7, 66229406269440) == 1098680059505421076);
    lemma_fmul_literal(1098680059505421076, 1098680059505421076, 65436906839090947, 16940429312545755789);
    assert(fpow_fast(7, 132458812538880) == 16940429312545755789);
    lemma_fmul_literal(16940429312545755789, 16940429312545755789, 15557116432768227154, 16945016486212160087);
    assert(fpow_fast(7, 264917625077760) == 16945016486212160087);
    lemma_fmul_literal(16945016486212160087, 16945016486212160087, 15565542766654441545, 18171560771947831624);
    assert(fpow_fast(7, 529835250155520) == 18171560771947831624);
    lemma_fmul_literal(18171560771947831624, 18171560771947831624, 17900482580884665437, 14884189242943664099);
    assert(fpow_fast(7, 1059670500311040) == 14884189242943664099);
    lemma_fmul_literal(14884189242943664099, 14884189242943664099, 12009658104764421268, 7182983899389742773);
    assert(fpow_fast(7, 2119341000622080) == 7182983899389742773);
    lemma_fmul_literal(7182983899389742773, 7182983899389742773, 2796984525005646317, 7794706010606133772);
    assert(fpow_fast(7, 4238682001244160) == 7794706010606133772);
    lemma_fmul_literal(7794706010606133772, 7794706010606133772, 3293667520032306374, 5944394147430185930);
    assert(fpow_fast(7, 8477364002488320) == 5944394147430185930);
    lemma_fmul_literal(5944394147430185930, 5944394147430185930, 1915558737467952802, 11638363544692747458);
    assert(fpow_fast(7, 16954728004976640) == 11638363544692747458);
    lemma_fmul_literal(11638363544692747458, 11638363544692747458, 7342840855206365294, 8942909788274506390);
    assert(fpow_fast(7, 33909456009953280) == 8942909788274506390);
    lemma_fmul_literal(8942909788274506390, 8942909788274506390, 4335487887741592074, 10254463118692560346);
    assert(fpow_fast(7, 67818912019906560) == 10254463118692560346);
    lemma_fmul_literal(10254463118692560346, 10254463118692560346, 5700410514556624445, 6509392022269312871);
    assert(fpow_fast(7, 135637824039813120) == 6509392022269312871);
    lemma_fmul_literal(6509392022269312871, 6509392022269312871, 2297000724905057721, 3060481852759670200);
    assert(fpow_fast(7, 271275648079626240) == 3060481852759670200);
    lemma_fmul_literal(3060481852759670200, 3060481852759670200, 507761648116610708, 9492362781570530732);
    assert(fpow_fast(7, 542551296159252480) == 9492362781570530732);
    lemma_fmul_literal(9492362781570530732, 9492362781570530732, 4884599192024511254, 16301593560560007290);
    assert(fpow_fast(7, 1085102592318504960) == 16301593560560007290);
}

/// `7^((P - 1) / 257) != 1`.
proof fn lemma_generator_power_257()
    ensures
        fpow(7, 71777214277877760) == 995085315851368103,
{
    lemma_powers_257_by_squaring();
    lemma_fpow_fast_is_fpow(7, 71777214277877760);
}

/// The squarings along the binary digits of the exponent, each reduced modulo `P`.
proof fn lemma_powers_257_by_squaring()
    ensures
        fpow_fast(7, 71777214277877760) == 995085315851368103,
{
    assert(fpow_fast(7, 0) == 1);
    lemma_fmul_literal(1, 1, 0, 1);
    lemma_fmul_literal(1, 7, 0, 7);
    assert(fpow_fast(7, 1) == 7);
    lemma_fmul_literal(7, 7, 0, 49);
    lemma_fmul_literal(49, 7, 0, 343);
    assert(fpow_fast(7, 3) == 343);
    lemma_fmul_literal(343, 343, 0, 117649);
    lemma_fmul_literal(117649, 7, 0, 823543);
    assert(fpow_fast(7, 7) == 823543);
    lemma_fmul_literal(823543, 823543, 0, 678223072849);
    lemma_fmul_literal(678223072849, 7, 0, 4747561509943);
    assert(fpow_fast(7, 15) == 4747561509943);
    lemma_fmul_literal(4747561509943, 4747561509943, 1221860, 1582037354089406189);
    lemma_fmul_literal(1582037354089406189, 7, 0, 11074261478625843323);
    assert(fpow_fast(7, 31) == 11074261478625843323);
    lemma_fmul_literal(11074261478625843323, 11074261478625843323, 6648288003318531524, 14911712358349047125);
    lemma_fmul_literal(14911712358349047125, 7, 5, 12148266161370408270);
    assert(fpow_fast(7, 63) == 12148266161370408270);
    lemma_fmul_literal(12148266161370408270, 12148266161370408270, 8000347929811162796, 14177331716484271384);
    lemma_fmul_literal(14177331716484271384, 7, 5, 7007601668316978083);
    assert(fpow_fast(7, 127) == 7007601668316978083);
    lemma_fmul_literal(7007601668316978083, 7007601668316978083, 2662067677472651718, 1160753142525841411);
    lemma_fmul_literal(1160753142525841411, 7, 0, 8125271997680889877);
    assert(fpow_fast(7, 255) == 8125271997680889877);
    lemma_fmul_literal(8125271997680889877, 8125271997680889877, 3578953813630503444, 10915923311382173605);
    assert(fpow_fast(7, 510) == 10915923311382173605);
    lemma_fmul_literal(10915923311382173605, 10915923311382173605, 6459534609012346485, 8682737361258234340);
    assert(fpow_fast(7, 1020) == 8682737361258234340);
    lemma_fmul_literal(8682737361258234340, 8682737361258234340, 4086896191593454428, 13168992710278412212);
    assert(fpow_fast(7, 2040) == 13168992710278412212);
    lemma_fmul_literal(13168992710278412212, 13168992710278412212, 9401245463740506992, 3615243740316660512);
    assert(fpow_fast(7, 4080) == 3615243740316660512);
    lemma_fmul_literal(3615243740316660512, 3615243740316660512, 708525431518798068, 9701552052102210316);
    assert(fpow_fast(7, 8160) == 9701552052102210316);
    lemma_fmul_literal(9701552052102210316, 9701552052102210316, 5102261508344087520, 12082995573853045936);
    assert(fpow_fast(7, 16320) == 12082995573853045936);
    lemma_fmul_literal(12082995573853045936, 12082995573853045936, 7914609835121197925, 2592469405483382171);
    assert(fpow_fast(7, 32640) == 2592469405483382171);
    lemma_fmul_literal(2592469405483382171, 2592469405483382171, 364340590029156928, 8929377406043347353);
    assert(fpow_fast(7, 65280) == 8929377406043347353);
    lemma_fmul_literal(8929377406043347353, 8929377406043347353, 4322376922427146017, 9795840452586307152);
    lemma_fmul_literal(9795840452586307152, 7, 3, 13230650959860397101);
    assert(fpow_fast(7, 130561) == 13230650959860397101);
    lemma_fmul_literal(13230650959860397101, 13230650959860397101, 9489486283484288682, 13828748494014249279);
    lemma_fmul_literal(13828748494014249279, 7, 5, 4567519111026823348);
    assert(fpow_fast(7, 261123) == 4567519111026823348);
    lemma_fmul_literal(4567519111026823348, 4567519111026823348, 1130943799680380932, 9911383694283361932);
    lemma_fmul_literal(9911383694283361932, 7, 3, 14039453651739780561);
    assert(fpow_fast(7, 522247) == 14039453651739780561);
    lemma_fmul_literal(14039453651739780561, 14039453651739780561, 10685151704693473038, 6677584045842437523);
    lemma_fmul_literal(6677584045842437523, 7, 2, 9849600182067894019);
    assert(fpow_fast(7, 1044495) == 9849600182067894019);
    lemma_fmul_literal(9849600182067894019, 9849600182067894019, 5259173292670433493, 10583023550344909108);
    lemma_fmul_literal(10583023550344909108, 7, 4, 294188574756026472);
    assert(fpow_fast(7, 2088991) == 294188574756026472);
    lemma_fmul_literal(294188574756026472, 294188574756026472, 4691717800784167, 7184320642221521177);
    lemma_fmul_literal(7184320642221521177, 7, 2, 13396756356721479597);
    assert(fpow_fast(7, 4177983) == 13396756356721479597);
    lemma_fmul_literal(13396756356721479597, 13396756356721479597, 9729255211976984404, 5302980850127352725);
    lemma_fmul_literal(5302980850127352725, 7, 2, 227377812062300433);
    assert(fpow_fast(7, 8355967) == 227377812062300433);
    lemma_fmul_literal(227377812062300433, 227377812062300433, 2802698905763024, 8373948673660040785);
    lemma_fmul_literal(8373948673660040785, 7, 3, 3277408507376532532);
    assert(fpow_fast(7, 16711935) == 3277408507376532532);
    lemma_fmul_literal(3277408507376532532, 3277408507376532532, 582292814591261049, 10187910960120918295);
    assert(fpow_fast(7, 33423870) == 10187910960120918295);
    lemma_fmul_literal(10187910960120918295, 10187910960120918295, 5626658522543586488, 1234511965033452377);
    assert(fpow_fast(7, 66847740) == 1234511965033452377);
    lemma_fmul_literal(1234511965033452377, 1234511965033452377, 82617278478842222, 15363200638052948867);
    assert(fpow_fast(7, 133695480) == 15363200638052948867);
    lemma_fmul_literal(15363200638052948867, 15363200638052948867, 12795099935083611061, 1236027695563809108);
    assert(fpow_fast(7, 267390960) == 1236027695563809108);
    lemma_fmul_literal(1236027695563809108, 1236027695563809108, 82820277575915035, 12002353154524589429);
    assert(fpow_fast(7, 534781920) == 12002353154524589429);
    lemma_fmul_literal(12002353154524589429, 12002353154524589429, 7809317498190782878, 14027517171084490203);
    assert(fpow_fast(7, 1069563840) == 14027517171084490203);
    lemma_fmul_literal(14027517171084490203, 14027517171084490203, 10666990187787369356, 2711851439569513933);
    assert(fpow_fast(7, 2139127680) == 2711851439569513933);
    lemma_fmul_literal(2711851439569513933, 2711851439569513933, 398668632395062656, 80652374890911913);
    assert(fpow_fast(7, 4278255360) == 80652374890911913);
    lemma_fmul_literal(80652374890911913, 80652374890911913, 352626216912144, 5283607704788425345);
    assert(fpow_fast(7, 8556510720) == 5283607704788425345);
    lemma_fmul_literal(5283607704788425345, 5283607704788425345, 1513357060359842408, 15514810852250684057);
    assert(fpow_fast(7, 17113021440) == 15514810852250684057);
    lemma_fmul_literal(15514810852250684057, 15514810852250684057, 13048880326811766543, 13397417830393806946);
    assert(fpow_fast(7, 34226042880) == 13397417830393806946);
    lemma_fmul_literal(13397417830393806946, 13397417830393806946, 9730216012470005624, 16359729400225625612);
    assert(fpow_fast(7, 68452085760) == 16359729400225625612);
    lemma_fmul_literal(16359729400225625612, 16359729400225625612, 14508833918955130100, 8019533974815212444);
    assert(fpow_fast(7, 136904171520) == 8019533974815212444);
    lemma_fmul_literal(8019533974815212444, 8019533974815212444, 3486410660396638761, 9655755660440986855);
    assert(fpow_fast(7, 273808343040) == 9655755660440986855);
    lemma_fmul_literal(9655755660440986855, 9655755660440986855, 5054204526462916814, 3604536941271117731);
    assert(fpow_fast(7, 547616686080) == 3604536941271117731);
    lemma_fmul_literal(3604536941271117731, 3604536941271117731, 704334949956318982, 17307879323250707139);
    assert(fpow_fast(7, 1095233372160) == 17307879323250707139);
    lemma_fmul_literal(17307879323250707139, 17307879323250707139, 16239325787844364670, 16869139653157226251);
    assert(fpow_fast(7, 2190466744320) == 16869139653157226251);
    lemma_fmul_literal(16869139653157226251, 16869139653157226251, 15426455290261550876, 6953284473670099805);
    assert(fpow_fast(7, 4380933488640) == 6953284473670099805);
    lemma_fmul_literal(6953284473670099805, 6953284473670099805, 2620959275514902696, 18224581395058808609);
    assert(fpow_fast(7, 8761866977280) == 18224581395058808609);
    lemma_fmul_literal(18224581395058808609, 18224581395058808609, 18005094328587610480, 12317229062629230801);
    assert(fpow_fast(7, 17523733954560) == 12317229062629230801);
    lemma_fmul_literal(12317229062629230801, 12317229062629230801, 8224439565615596223, 8521080430804482018);
    assert(fpow_fast(7, 35047467909120) == 8521080430804482018);
    lemma_fmul_literal(8521080430804482018, 8521080430804482018, 3936131570699640004, 1553296775282575040);
    assert(fpow_fast(7, 70094935818240) == 1553296775282575040);
    lemma_fmul_literal(1553296775282575040, 1553296775282575040, 130794402688312220, 13200482976866298980);
    assert(fpow_fast(7, 140189871636480) == 13200482976866298980);
    lemma_fmul_literal(13200482976866298980, 13200482976866298980, 9446260552367870276, 14925891398157497804);
    assert(fpow_fast(7, 280379743272960) == 14925891398157497804);
    lemma_fmul_literal(14925891398157497804, 14925891398157497804, 12077049109114792339, 15678887058344505597);
    assert(fpow_fast(7, 560759486545920) == 15678887058344505597);
    lemma_fmul_literal(15678887058344505597, 15678887058344505597, 13326335447777710170, 14658776698600081839);
    assert(fpow_fast(7, 1121518973091840) == 14658776698600081839);
    lemma_fmul_literal(14658776698600081839, 14658776698600081839, 11648653740239158589, 16565152875265738852);
    assert(fpow_fast(7, 2243037946183680) == 16565152875265738852);
    lemma_fmul_literal(16565152875265738852, 16565152875265738852, 14875486359454496296, 5984943436188102888);
    assert(fpow_fast(7, 4486075892367360) == 5984943436188102888);
    lemma_fmul_literal(5984943436188102888, 5984943436188102888, 1941781584846794362, 14921717924877542342);
    assert(fpow_fast(7, 8972151784734720) == 14921717924877542342);
    lemma_fmul_literal(14921717924877542342, 14921717924877542342, 12070296253461161021, 1654982787239893223);
    assert(fpow_fast(7, 17944303569469440) == 1654982787239893223);
    lemma_fmul_literal(1654982787239893223, 1654982787239893223, 148479754245717577, 18353445258623017512);
    assert(fpow_fast(7, 35888607138938880) == 18353445258623017512);
    lemma_fmul_literal(18353445258623017512, 18353445258623017512, 18260618328834535321, 995085315851368103);
    assert(fpow_fast(7, 71777214277877760) == 995085315851368103);
}

/// `7^((P - 1) / 65537) != 1`.
proof fn lemma_generator_power_65537()
    ensures
        fpow(7, 281470681743360) == 8478886009461009681,
{
    lemma_powers_65537_by_squaring();
    lemma_fpow_fast_is_fpow(7, 281470681743360);
}

/// The squarings along the binary digits of the exponent, each reduced modulo `P`.
proof fn lemma_powers_65537_by_squaring()
    ensures
        fpow_fast(7, 281470681743360) == 8478886009461009681,
{
    assert(fpow_fast(7, 0) == 1);
    lemma_fmul_literal(1, 1, 0, 1);
    lemma_fmul_literal(1, 7, 0, 7);
    assert(fpow_fast(7, 1) == 7);
    lemma_fmul_literal(7, 7, 0, 49);
    lemma_fmul_literal(49, 7, 0, 343);
    assert(fpow_fast(7, 3) == 343);
    lemma_fmul_literal(343, 343, 0, 117649);
    lemma_fmul_literal(117649, 7, 0, 823543);
    assert(fpow_fast(7, 7) == 823543);
    lemma_fmul_literal(823543, 823543, 0, 678223072849);
    lemma_fmul_literal(678223072849, 7, 0, 4747561509943);
    assert(fpow_fast(7, 15) == 4747561509943);
    lemma_fmul_literal(4747561509943, 4747561509943, 1221860, 1582037354089406189);
    lemma_fmul_literal(1582037354089406189, 7, 0, 11074261478625843323);
    assert(fpow_fast(7, 31) == 11074261478625843323);
    lemma_fmul_literal(11074261478625843323, 11074261478625843323, 6648288003318531524, 14911712358349047125);
    lemma_fmul_literal(14911712358349047125, 7, 5, 12148266161370408270);
    assert(fpow_fast(7, 63) == 12148266161370408270);
    lemma_fmul_literal(12148266161370408270, 12148266161370408270, 8000347929811162796, 14177331716484271384);
    lemma_fmul_literal(14177331716484271384, 7, 5, 7007601668316978083);
    assert(fpow_fast(7, 127) == 7007601668316978083);
    lemma_fmul_literal(7007601668316978083, 7007601668316978083, 2662067677472651718, 1160753142525841411);
    lemma_fmul_literal(1160753142525841411, 7, 0, 8125271997680889877);
    assert(fpow_fast(7, 255) == 8125271997680889877);
    lemma_fmul_literal(8125271997680889877, 8125271997680889877, 3578953813630503444, 10915923311382173605);
    lemma_fmul_literal(10915923311382173605, 7, 4, 2624486902016877951);
    assert(fpow_fast(7, 511) == 2624486902016877951);
    lemma_fmul_literal(2624486902016877951, 2624486902016877951, 373395514836605044, 1179017105118043277);
    lemma_fmul_literal(1179017105118043277, 7, 0, 8253119735826302939);
    assert(fpow_fast(7, 1023) == 8253119735826302939);
    lemma_fmul_literal(8253119735826302939, 8253119735826302939, 3692466546810352761, 13682469552810377440);
    lemma_fmul_literal(13682469552810377440, 7, 5, 3543566522599720475);
    assert(fpow_fast(7, 2047) == 3543566522599720475);
    lemma_fmul_literal(3543566522599720475, 3543566522599720475, 680708945320558836, 12252646851770615269);
    lemma_fmul_literal(12252646851770615269, 7, 4, 11981551684735969599);
    assert(fpow_fast(7, 4095) == 11981551684735969599);
    lemma_fmul_literal(11981551684735969599, 11981551684735969599, 7782272049408620407, 9343193256669382154);
    lemma_fmul_literal(9343193256669382154, 7, 3, 10062120588441922115);
    assert(fpow_fast(7, 8191) == 10062120588441922115);
    lemma_fmul_literal(10062120588441922115, 10062120588441922115, 5488571335698045963, 4133221502128927102);
    lemma_fmul_literal(4133221502128927102, 7, 1, 10485806445487905393);
    assert(fpow_fast(7, 16383) == 10485806445487905393);
    lemma_fmul_literal(10485806445487905393, 10485806445487905393, 5960517281450258735, 5861853314594190514);
    lemma_fmul_literal(5861853314594190514, 7, 2, 4139485063330164956);
    assert(fpow_fast(7, 32767) == 4139485063330164956);
    lemma_fmul_literal(4139485063330164956, 4139485063330164956, 928908458048409263, 7004045467739516513);
    lemma_fmul_literal(7004045467739516513, 7, 2, 12134830135347446949);
    assert(fpow_fast(7, 65535) == 12134830135347446949);
    lemma_fmul_literal(12134830135347446949, 12134830135347446949, 7982660889077413892, 618113109518621269);
    assert(fpow_fast(7, 131070) == 618113109518621269);
    lemma_fmul_literal(618113109518621269, 618113109518621269, 20711720980194856, 10057574059836717585);
    assert(fpow_fast(7, 262140) == 10057574059836717585);
    lemma_fmul_literal(10057574059836717585, 10057574059836717585, 5483612478628084872, 11436575600859740313);
    assert(fpow_fast(7, 524280) == 11436575600859740313);
    lemma_fmul_literal(11436575600859740313, 11436575600859740313, 7090425333706664058, 2460531272136303351);
    assert(fpow_fast(7, 1048560) == 2460531272136303351);
    lemma_fmul_literal(2460531272136303351, 2460531272136303351, 328199606303359338, 5287351674330089703);
    assert(fpow_fast(7, 2097120) == 5287351674330089703);
    lemma_fmul_literal(5287351674330089703, 5287351674330089703, 1515502552799736540, 2729558173611838869);
    assert(fpow_fast(7, 4194240) == 2729558173611838869);
    lemma_fmul_literal(2729558173611838869, 2729558173611838869, 403891754289820429, 5809869834850305452);
    assert(fpow_fast(7, 8388480) == 5809869834850305452);
    lemma_fmul_literal(5809869834850305452, 5809869834850305452, 1829839855254994736, 4380238239217790048);
    assert(fpow_fast(7, 16776960) == 4380238239217790048);
    lemma_fmul_literal(4380238239217790048, 4380238239217790048, 1040101546381711006, 10313688370767105378);
    assert(fpow_fast(7, 33553920) == 10313688370767105378);
    lemma_fmul_literal(10313688370767105378, 10313688370767105378, 5766446772884207792, 1116132233887293652);
    assert(fpow_fast(7, 67107840) == 1116132233887293652);
    lemma_fmul_literal(1116132233887293652, 1116132233887293652, 67532305909081485, 8201916556687100419);
    assert(fpow_fast(7, 134215680) == 8201916556687100419);
    lemma_fmul_literal(8201916556687100419, 8201916556687100419, 3646791810506908108, 9569002298025400893);
    assert(fpow_fast(7, 268431360) == 9569002298025400893);
    lemma_fmul_literal(9569002298025400893, 9569002298025400893, 4963792235369874951, 3860342023949954178);
    assert(fpow_fast(7, 536862720) == 3860342023949954178);
    lemma_fmul_literal(3860342023949954178, 3860342023949954178, 807852078708161850, 2518827640559301834);
    assert(fpow_fast(7, 1073725440) == 2518827640559301834);
    lemma_fmul_literal(2518827640559301834, 2518827640559301834, 343935637583054772, 4408381949760333744);
    assert(fpow_fast(7, 2147450880) == 4408381949760333744);
    lemma_fmul_literal(4408381949760333744, 4408381949760333744, 1053510112236812913, 5214785644524920463);
    assert(fpow_fast(7, 4294901760) == 5214785644524920463);
    lemma_fmul_literal(5214785644524920463, 5214785644524920463, 1474189115218000828, 16359673064222316581);
    assert(fpow_fast(7, 8589803520) == 16359673064222316581);
    lemma_fmul_literal(16359673064222316581, 16359673064222316581, 14508733994526267725, 7241809583754189836);
    assert(fpow_fast(7, 17179607040) == 7241809583754189836);
    lemma_fmul_literal(7241809583754189836, 7241809583754189836, 2842984423159417742, 12639803007403283714);
    assert(fpow_fast(7, 34359214080) == 12639803007403283714);
    lemma_fmul_literal(12639803007403283714, 12639803007403283714, 8660857410108324724, 12324653451830581392);
    assert(fpow_fast(7, 68718428160) == 12324653451830581392);
    lemma_fmul_literal(12324653451830581392, 12324653451830581392, 8234357355213200339, 3248773168955372845);
    assert(fpow_fast(7, 137436856320) == 3248773168955372845);
    lemma_fmul_literal(3248773168955372845, 3248773168955372845, 572162060882285997, 11622038198969340988);
    assert(fpow_fast(7, 274873712640) == 11622038198969340988);
    lemma_fmul_literal(11622038198969340988, 11622038198969340988, 7322255428385150589, 13512512774593501075);
    assert(fpow_fast(7, 549747425280) == 13512512774593501075);
    lemma_fmul_literal(13512512774593501075, 13512512774593501075, 9898115396217294011, 7628844061018354094);
    assert(fpow_fast(7, 1099494850560) == 7628844061018354094);
    lemma_fmul_literal(7628844061018354094, 7628844061018354094, 3154988299741830395, 10832619856158324041);
    assert(fpow_fast(7, 2198989701120) == 10832619856158324041);
    lemma_fmul_literal(10832619856158324041, 10832619856158324041, 6361320594380621547, 6522121551337605094);
    assert(fpow_fast(7, 4397979402240) == 6522121551337605094);
    lemma_fmul_literal(6522121551337605094, 6522121551337605094, 2305993370448078927, 4924686556790045269);
    assert(fpow_fast(7, 8795958804480) == 4924686556790045269);
    lemma_fmul_literal(4924686556790045269, 4924686556790045269, 1314732702495734083, 8233486007872169718);
    assert(fpow_fast(7, 17591917608960) == 8233486007872169718);
    lemma_fmul_literal(8233486007872169718, 8233486007872169718, 3674919085272382902, 6861851865518519982);
    assert(fpow_fast(7, 35183835217920) == 6861851865518519982);
    lemma_fmul_literal(6861851865518519982, 6861851865518519982, 2552483562797879524, 16452032933035937120);
    assert(fpow_fast(7, 70367670435840) == 16452032933035937120);
    lemma_fmul_literal(16452032933035937120, 16452032933035937120, 14673016908088369982, 7318164361609642178);
    assert(fpow_fast(7, 140735340871680) == 7318164361609642178);
    lemma_fmul_literal(7318164361609642178, 7318164361609642178, 2903251078998304243, 8478886009461009681);
    assert(fpow_fast(7, 281470681743360) == 8478886009461009681);
}

/// 5 is prime.
proof fn lemma_prime_5()
    ensures
        is_prime(5),
{
    assert(no_divisor_up_to(5, 1));
    assert(no_divisor_up_to(5, 2));
    assert((2nat + 1) * (2nat + 1) > 5nat) by (nonlinear_arith);
    lemma_prime_by_trial_division(5, 2);
}

/// 17 is prime.
proof fn lemma_prime_17()
    ensures
        is_prime(17),
{
    assert(no_divisor_up_to(17, 1));
    assert(no_divisor_up_to(17, 2));
    assert(no_divisor_up_to(17, 3));
    assert(no_divisor_up_to(17, 4));
    assert((4nat + 1) * (4nat + 1) > 17nat) by (nonlinear_arith);
    lemma_prime_by_trial_division(17, 4);
}

/// 257 is prime.
proof fn lemma_prime_257()
    ensures
        is_prime(257),
{
    assert(no_divisor_up_to(257, 1));
    assert(no_divisor_up_to(257, 2));
    assert(no_divisor_up_to(257, 3));
    assert(no_divisor_up_to(257, 4));
    assert(no_divisor_up_to(257, 5));
    assert(no_divisor_up_to(257, 6));
    assert(no_divisor_up_to(257, 7));
    assert(no_divisor_up_to(257, 8));
    assert(no_divisor_up_to(257, 9));
    assert(no_divisor_up_to(257, 10));
    assert(no_divisor_up_to(257, 11));
    assert(no_divisor_up_to(257, 12));
    assert(no_divisor_up_to(257, 13));
    assert(no_divisor_up_to(257, 14));
    assert(no_divisor_up_to(257, 15));
    assert(no_divisor_up_to(257, 16));
    assert((16nat + 1) * (16nat + 1) > 257nat) by (nonlinear_arith);
    lemma_prime_by_trial_division(257, 16);
}

/// 65537 is prime.
proof fn lemma_prime_65537()
    ensures
        is_prime(65537),
{
    assert(no_divisor_up_to(65537, 1));
    assert(no_divisor_up_to(65537, 2));
    assert(no_divisor_up_to(65537, 3));
    assert(no_divisor_up_to(65537, 4));
    assert(no_divisor_up_to(65537, 5));
    assert(no_divisor_up_to(65537, 6));
    assert(no_divisor_up_to(65537, 7));
    assert(no_divisor_up_to(65537, 8));
    assert(no_divisor_up_to(65537, 9));
    assert(no_divisor_up_to(65537, 10));
    assert(no_divisor_up_to(65537, 11));
    assert(no_divisor_up_to(65537, 12));
    assert(no_divisor_up_to(65537, 13));
    assert(no_divisor_up_to(65537, 14));
    assert(no_divisor_up_to(65537, 15));
    assert(no_divisor_up_to(65537, 16));
    assert(no_divisor_up_to(65537, 17));
    assert(no_divisor_up_to(65537, 18));
    assert(no_divisor_up_to(65537, 19));
    assert(no_divisor_up_to(65537, 20));
    assert(no_divisor_up_to(65537, 21));
    assert(no_divisor_up_to(65537, 22));
    assert(no_divisor_up_to(65537, 23));
    assert(no_divisor_up_to(65537, 24));
    assert(no_divisor_up_to(65537, 25));
    assert(no_divisor_up_to(65537, 26));
    assert(no_divisor_up_to(65537, 27));
    assert(no_divisor_up_to(65537, 28));
    assert(no_divisor_up_to(65537, 29));
    assert(no_divisor_up_to(65537, 30));
    assert(no_divisor_up_to(65537, 31));
    assert(no_divisor_up_to(65537, 32));
    assert(no_divisor_up_to(65537, 33));
    assert(no_divisor_up_to(65537, 34));
    assert(no_divisor_up_to(65537, 35));
    assert(no_divisor_up_to(65537, 36));
    assert(no_divisor_up_to(65537, 37));
    assert(no_divisor_up_to(65537, 38));
    assert(no_divisor_up_to(65537, 39));
    assert(no_divisor_up_to(65537, 40));
    assert(no_divisor_up_to(65537, 41));
    assert(no_divisor_up_to(65537, 42));
    assert(no_divisor_up_to(65537, 43));
    assert(no_divisor_up_to(65537, 44));
    assert(no_divisor_up_to(65537, 45));
    assert(no_divisor_up_to(65537, 46));
    assert(no_divisor_up_to(65537, 47));
    assert(no_divisor_up_to(65537, 48));
    assert(no_divisor_up_to(65537, 49));
    assert(no_divisor_up_to(65537, 50));
    assert(no_divisor_up_to(65537, 51));
    assert(no_divisor_up_to(65537, 52));
    assert(no_divisor_up_to(65537, 53));
    assert(no_divisor_up_to(65537, 54));
    assert(no_divisor_up_to(65537, 55));
    assert(no_divisor_up_to(65537, 56));
    assert(no_divisor_up_to(65537, 57));
    assert(no_divisor_up_to(65537, 58));
    assert(no_divisor_up_to(65537, 59));
    assert(no_divisor_up_to(65537, 60));
    assert(no_divisor_up_to(65537, 61));
    assert(no_divisor_up_to(65537, 62));
    assert(no_divisor_up_to(65537, 63));
    assert(no_divisor_up_to(65537, 64));
    assert(no_divisor_up_to(65537, 65));
    assert(no_divisor_up_to(65537, 66));
    assert(no_divisor_up_to(65537, 67));
    assert(no_divisor_up_to(65537, 68));
    assert(no_divisor_up_to(65537, 69));
    assert(no_divisor_up_to(65537, 70));
    assert(no_divisor_up_to(65537, 71));
    assert(no_divisor_up_to(65537, 72));
    assert(no_divisor_up_to(65537, 73));
    assert(no_divisor_up_to(65537, 74));
    assert(no_divisor_up_to(65537, 75));
    assert(no_divisor_up_to(65537, 76));
    assert(no_divisor_up_to(65537, 77));
    assert(no_divisor_up_to(65537, 78));
    assert(no_divisor_up_to(65537, 79));
    assert(no_divisor_up_to(65537, 80));
    assert(no_divisor_up_to(65537, 81));
    assert(no_divisor_up_to(65537, 82));
    assert(no_divisor_up_to(65537, 83));
    assert(no_divisor_up_to(65537, 84));
    assert(no_divisor_up_to(65537, 85));
    assert(no_divisor_up_to(65537, 86));
    assert(no_divisor_up_to(65537, 87));
    assert(no_divisor_up_to(65537, 88));
    assert(no_divisor_up_to(65537, 89));
    assert(no_divisor_up_to(65537, 90));
    assert(no_divisor_up_to(65537, 91));
    assert(no_divisor_up_to(65537, 92));
    assert(no_divisor_up_to(65537, 93));
    assert(no_divisor_up_to(65537, 94));
    assert(no_divisor_up_to(65537, 95));
    assert(no_divisor_up_to(65537, 96));
    assert(no_divisor_up_to(65537, 97));
    assert(no_divisor_up_to(65537, 98));
    assert(no_divisor_up_to(65537, 99));
    assert(no_divisor_up_to(65537, 100));
    assert(no_divisor_up_to(65537, 101));
    assert(no_divisor_up_to(65537, 102));
    assert(no_divisor_up_to(65537, 103));
    assert(no_divisor_up_to(65537, 104));
    assert(no_divisor_up_to(65537, 105));
    assert(no_divisor_up_to(65537, 106));
    assert(no_divisor_up_to(65537, 107));
    assert(no_divisor_up_to(65537, 108));
    assert(no_divisor_up_to(65537, 109));
    assert(no_divisor_up_to(65537, 110));
    assert(no_divisor_up_to(65537, 111));
    assert(no_divisor_up_to(65537, 112));
    assert(no_divisor_up_to(65537, 113));
    assert(no_divisor_up_to(65537, 114));
    assert(no_divisor_up_to(65537, 115));
    assert(no_divisor_up_to(65537, 116));
    assert(no_divisor_up_to(65537, 117));
    assert(no_divisor_up_to(65537, 118));
    assert(no_divisor_up_to(65537, 119));
    assert(no_divisor_up_to(65537, 120));
    assert(no_divisor_up_to(65537, 121));
    assert(no_divisor_up_to(65537, 122));
    assert(no_divisor_up_to(65537, 123));
    assert(no_divisor_up_to(65537, 124));
    assert(no_divisor_up_to(65537, 125));
    assert(no_divisor_up_to(65537, 126));
    assert(no_divisor_up_to(65537, 127));
    assert(no_divisor_up_to(65537, 128));
    assert(no_divisor_up_to(65537, 129));
    assert(no_divisor_up_to(65537, 130));
    assert(no_divisor_up_to(65537, 131));
    assert(no_divisor_up_to(65537, 132));
    assert(no_divisor_up_to(65537, 133));
    assert(no_divisor_up_to(65537, 134));
    assert(no_divisor_up_to(65537, 135));
    assert(no_divisor_up_to(65537, 136));
    assert(no_divisor_up_to(65537, 137));
    assert(no_divisor_up_to(65537, 138));
    assert(no_divisor_up_to(65537, 139));
    assert(no_divisor_up_to(65537, 140));
    assert(no_divisor_up_to(65537, 141));
    assert(no_divisor_up_to(65537, 142));
    assert(no_divisor_up_to(65537, 143));
    assert(no_divisor_up_to(65537, 144));
    assert(no_divisor_up_to(65537, 145));
    assert(no_divisor_up_to(65537, 146));
    assert(no_divisor_up_to(65537, 147));
    assert(no_divisor_up_to(65537, 148));
    assert(no_divisor_up_to(65537, 149));
    assert(no_divisor_up_to(65537, 150));
    assert(no_divisor_up_to(65537, 151));
    assert(no_divisor_up_to(65537, 152));
    assert(no_divisor_up_to(65537, 153));
    assert(no_divisor_up_to(65537, 154));
    assert(no_divisor_up_to(65537, 155));
    assert(no_divisor_up_to(65537, 156));
    assert(no_divisor_up_to(65537, 157));
    assert(no_divisor_up_to(65537, 158));
    assert(no_divisor_up_to(65537, 159));
    assert(no_divisor_up_to(65537, 160));
    assert(no_divisor_up_to(65537, 161));
    assert(no_divisor_up_to(65537, 162));
    assert(no_divisor_up_to(65537, 163));
    assert(no_divisor_up_to(65537, 164));
    assert(no_divisor_up_to(65537, 165));
    assert(no_divisor_up_to(65537, 166));
    assert(no_divisor_up_to(65537, 167));
    assert(no_divisor_up_to(65537, 168));
    assert(no_divisor_up_to(65537, 169));
    assert(no_divisor_up_to(65537, 170));
    assert(no_divisor_up_to(65537, 171));
    assert(no_divisor_up_to(65537, 172));
    assert(no_divisor_up_to(65537, 173));
    assert(no_divisor_up_to(65537, 174));
    assert(no_divisor_up_to(65537, 175));
    assert(no_divisor_up_to(65537, 176));
    assert(no_divisor_up_to(65537, 177));
    assert(no_divisor_up_to(65537, 178));
    assert(no_divisor_up_to(65537, 179));
    assert(no_divisor_up_to(65537, 180));
    assert(no_divisor_up_to(65537, 181));
    assert(no_divisor_up_to(65537, 182));
    assert(no_divisor_up_to(65537, 183));
    assert(no_divisor_up_to(65537, 184));
    assert(no_divisor_up_to(65537, 185));
    assert(no_divisor_up_to(65537, 186));
    assert(no_divisor_up_to(65537, 187));
    assert(no_divisor_up_to(65537, 188));
    assert(no_divisor_up_to(65537, 189));
    assert(no_divisor_up_to(65537, 190));
    assert(no_divisor_up_to(65537, 191));
    assert(no_divisor_up_to(65537, 192));
    assert(no_divisor_up_to(65537, 193));
    assert(no_divisor_up_to(65537, 194));
    assert(no_divisor_up_to(65537, 195));
    assert(no_divisor_up_to(65537, 196));
    assert(no_divisor_up_to(65537, 197));
    assert(no_divisor_up_to(65537, 198));
    assert(no_divisor_up_to(65537, 199));
    assert(no_divisor_up_to(65537, 200));
    assert(no_divisor_up_to(65537, 201));
    assert(no_divisor_up_to(65537, 202));
    assert(no_divisor_up_to(65537, 203));
    assert(no_divisor_up_to(65537, 204));
    assert(no_divisor_up_to(65537, 205));
    assert(no_divisor_up_to(65537, 206));
    assert(no_divisor_up_to(65537, 207));
    assert(no_divisor_up_to(65537, 208));
    assert(no_divisor_up_to(65537, 209));
    assert(no_divisor_up_to(65537, 210));
    assert(no_divisor_up_to(65537, 211));
    assert(no_divisor_up_to(65537, 212));
    assert(no_divisor_up_to(65537, 213));
    assert(no_divisor_up_to(65537, 214));
    assert(no_divisor_up_to(65537, 215));
    assert(no_divisor_up_to(65537, 216));
    assert(no_divisor_up_to(65537, 217));
    assert(no_divisor_up_to(65537, 218));
    assert(no_divisor_up_to(65537, 219));
    assert(no_divisor_up_to(65537, 220));
    assert(no_divisor_up_to(65537, 221));
    assert(no_divisor_up_to(65537, 222));
    assert(no_divisor_up_to(65537, 223));
    assert(no_divisor_up_to(65537, 224));
    assert(no_divisor_up_to(65537, 225));
    assert(no_divisor_up_to(65537, 226));
    assert(no_divisor_up_to(65537, 227));
    assert(no_divisor_up_to(65537, 228));
    assert(no_divisor_up_to(65537, 229));
    assert(no_divisor_up_to(65537, 230));
    assert(no_divisor_up_to(65537, 231));
    assert(no_divisor_up_to(65537, 232));
    assert(no_divisor_up_to(65537, 233));
    assert(no_divisor_up_to(65537, 234));
    assert(no_divisor_up_to(65537, 235));
    assert(no_divisor_up_to(65537, 236));
    assert(no_divisor_up_to(65537, 237));
    assert(no_divisor_up_to(65537, 238));
    assert(no_divisor_up_to(65537, 239));
    assert(no_divisor_up_to(65537, 240));
    assert(no_divisor_up_to(65537, 241));
    assert(no_divisor_up_to(65537, 242));
    assert(no_divisor_up_to(65537, 243));
    assert(no_divisor_up_to(65537, 244));
    assert(no_divisor_up_to(65537, 245));
    assert(no_divisor_up_to(65537, 246));
    assert(no_divisor_up_to(65537, 247));
    assert(no_divisor_up_to(65537, 248));
    assert(no_divisor_up_to(65537, 249));
    assert(no_divisor_up_to(65537, 250));
    assert(no_divisor_up_to(65537, 251));
    assert(no_divisor_up_to(65537, 252));
    assert(no_divisor_up_to(65537, 253));
    assert(no_divisor_up_to(65537, 254));
    assert(no_divisor_up_to(65537, 255));
    assert(no_divisor_up_to(65537, 256));
    assert((256nat + 1) * (256nat + 1) > 65537nat) by (nonlinear_arith);
    lemma_prime_by_trial_division(65537, 256);
}

// THE ORDER OF 7 IS P - 1
// ================================================================================================

/// Removing the factors 2 of `2^k * r` from a multiple of an odd `m`.
proof fn lemma_strip_twos(m: nat, k: nat, r: nat)
    requires
        m > 0,
        gcd(m, 2) == 1,
        (pow2(k) * r) % m == 0,
    ensures
        r % m == 0,
    decreases k,
{
    if k > 0 {
        lemma_pow2_unfold(k);
        let h = pow2((k - 1) as nat);
        assert(pow2(k) * r == 2 * (h * r)) by (nonlinear_arith)
            requires
                pow2(k) == 2 * h,
        ;
        lemma_gauss(m, 2, h * r);
        lemma_strip_twos(m, (k - 1) as nat, r);
    } else {
        lemma2_to64();
    }
}

/// A divisor `m > 1` of `P - 1` is a multiple of one of the primes of `P - 1`.
proof fn lemma_divisor_has_a_prime_factor(m: nat)
    requires
        m > 1,
        18446744069414584320nat % m == 0,
    ensures
        m % 2 == 0 || m % 3 == 0 || m % 5 == 0 || m % 17 == 0 || m % 257 == 0 || m % 65537 == 0,
{
    if !(m % 2 == 0 || m % 3 == 0 || m % 5 == 0 || m % 17 == 0 || m % 257 == 0 || m % 65537
        == 0) {
        lemma_prime_2();
        lemma_prime_3();
        lemma_prime_5();
        lemma_prime_17();
        lemma_prime_257();
        lemma_prime_65537();
        lemma_coprime_to_prime(m, 2);
        lemma_coprime_to_prime(m, 3);
        lemma_coprime_to_prime(m, 5);
        lemma_coprime_to_prime(m, 17);
        lemma_coprime_to_prime(m, 257);
        lemma_coprime_to_prime(m, 65537);
        lemma2_to64();
        assert(pow2(32) * 4294967295 == 18446744069414584320nat);
        lemma_strip_twos(m, 32, 4294967295);
        lemma_gauss(m, 3, 1431655765);
        lemma_gauss(m, 5, 286331153);
        lemma_gauss(m, 17, 16843009);
        lemma_gauss(m, 257, 65537);
        lemma_gauss(m, 65537, 1);
        lemma_small_mod(1, m);
    }
}

/// No power `7^k` with `0 < k < P - 1` is one: 7 has order `P - 1`.
proof fn lemma_no_smaller_power_is_one(k: nat)
    requires
        0 < k < 18446744069414584320nat,
    ensures
        fpow(7, k) != 1,
{
    let n: nat = 18446744069414584320;
    if fpow(7, k) == 1 {
        lemma_generator_power_full();
        lemma_fpow_one_gcd(7, n, k);
        lemma_gcd_divides(n, k);
        let g = gcd(n, k);
        lemma_fundamental_div_mod(k as int, g as int);
        assert(g <= k) by (nonlinear_arith)
            requires
                k == g * (k / g) + k % g,
                k % g == 0,
                g > 0,
                k > 0,
        ;
        lemma_fundamental_div_mod(n as int, g as int);
        let m = n / g;
        assert(n == g * m);
        assert(m > 1) by (nonlinear_arith)
            requires
                n == g * m,
                g < n,
                g > 0,
        ;
        lemma_mod_multiples_basic(g as int, m as int);
        lemma_mul_is_commutative(g as int, m as int);
        assert(n % m == 0);
        lemma_divisor_has_a_prime_factor(m);
        let q: nat = if m % 2 == 0 {
            2
        } else if m % 3 == 0 {
            3
        } else if m % 5 == 0 {
            5
        } else if m % 17 == 0 {
            17
        } else if m % 257 == 0 {
            257
        } else {
            65537
        };
        assert(m % q == 0);
        lemma_fundamental_div_mod(m as int, q as int);
        let mq = m / q;
        assert(n == q * (g * mq)) by (nonlinear_arith)
            requires
                n == g * m,
                m == q * mq,
        ;
        lemma_div_multiples_vanish((g * mq) as int, q as int);
        assert(n / q == g * mq);
        // 7^(n / q) = (7^g)^(m / q) = 1
        lemma_fpow_mul(7, g, mq);
        lemma_fpow_of_one(mq);
        if q == 2 {
            lemma_generator_power_2();
        } else if q == 3 {
            lemma_generator_power_3();
        } else if q == 5 {
            lemma_generator_power_5();
        } else if q == 17 {
            lemma_generator_power_17();
        } else if q == 257 {
            lemma_generator_power_257();
        } else {
            lemma_generator_power_65537();
        }
    }
}

/// `7^i` and `7^(P - 1 - i)` are inverses, so `7^i` is not zero.
proof fn lemma_inverse_of_power(i: nat)
    requires
        i < 18446744069414584320nat,
    ensures
        fmul(fpow(7, i), fpow(7, (18446744069414584320nat - i) as nat)) == 1,
        0 < fpow(7, i) < P,
        fpow(7, (18446744069414584320nat - i) as nat) < P,
{
    let n: nat = 18446744069414584320;
    let w = fpow(7, (n - i) as nat);
    lemma_fpow_add(7, i, (n - i) as nat);
    lemma_generator_power_full();
    lemma_fpow_lt_p(7, i);
    lemma_fpow_lt_p(7, (n - i) as nat);
    if fpow(7, i) == 0 {
        assert(0 * w == 0);
    }
}

/// The powers `7^0, ..., 7^(P - 2)` are distinct.
proof fn lemma_powers_distinct(i: nat, j: nat)
    requires
        i < j < 18446744069414584320nat,
    ensures
        fpow(7, i) != fpow(7, j),
{
    let n: nat = 18446744069414584320;
    let x = fpow(7, i);
    let y = fpow(7, (j - i) as nat);
    let w = fpow(7, (n - i) as nat);
    lemma_fpow_add(7, i, (j - i) as nat);
    assert(i + (j - i) as nat == j);
    lemma_inverse_of_power(i);
    if x == fpow(7, j) {
        // w * (x * y) = (w * x) * y = y, and w * x = 1
        lemma_fmul_assoc(w, x, y);
        lemma_fmul_comm(w, x);
        lemma_fpow_lt_p(7, (j - i) as nat);
        lemma_fmul_one(y);
        lemma_no_smaller_power_is_one((j - i) as nat);
    }
}

// INVERSES
// ================================================================================================

/// Every non-zero value of the field has a multiplicative inverse: it is a power of 7.
pub proof fn lemma_nonzero_is_invertible(v: nat)
    requires
        0 < v < P,
    ensures
        invertible(v),
{
    let n: int = 18446744069414584320;
    let f = |i: int| fpow(7, i as nat) as int;
    let dom = set_int_range(0, n);
    let s = dom.map(f);
    let t = set_int_range(1, P as int);
    lemma_int_range(0, n);
    lemma_int_range(1, P as int);
    assert forall|x1: int, x2: int|
        dom.contains(x1) && dom.contains(x2) && #[trigger] f(x1) == #[trigger] f(x2) implies x1
        == x2 by {
        if x1 < x2 {
            lemma_powers_distinct(x1 as nat, x2 as nat);
        } else if x2 < x1 {
            lemma_powers_distinct(x2 as nat, x1 as nat);
        }
    }
    assert(vstd::relations::injective_on(f, dom));
    lemma_map_size(dom, s, f);
    assert forall|y: int| s.contains(y) implies t.contains(y) by {
        let i = choose|i: int| dom.contains(i) && y == f(i);
        lemma_inverse_of_power(i as nat);
    }
    assert(s.subset_of(t));
    lemma_subset_equality(s, t);
    assert(t.contains(v as int));
    assert(s.contains(v as int));
    let i = choose|i: int| dom.contains(i) && v as int == f(i);
    lemma_inverse_of_power(i as nat);
    let w = fpow(7, (18446744069414584320nat - i as nat) as nat);
    assert(w < P && fmul(v, w) == 1);
}

/// The field has no zero divisors: the product of two non-zero values is not zero.
pub proof fn lemma_no_zero_divisors(a: nat, b: nat)
    requires
        0 < a < P,
        0 < b < P,
    ensures
        fmul(a, b) != 0,
{
    lemma_nonzero_is_invertible(a);
    let w = choose|w: nat| w < P && fmul(a, w) == 1;
    if fmul(a, b) == 0 {
        lemma_fmul_assoc(w, a, b);
        lemma_fmul_comm(w, a);
        lemma_fmul_one(b);
        assert(w * 0 == 0);
    }
}

} // verus!
