//! Greatest common divisor and least common multiple over natural numbers,
//! with the divisibility facts that relate Euler's totient of an RSA modulus
//! to its Carmichael function.

use vstd::prelude::*;

verus! {

/// The greatest common divisor, by Euclid's rule; `gcd(a, 0) == a`.
pub open spec fn gcd(a: nat, b: nat) -> nat
    decreases b,
{
    if b == 0 {
        a
    } else {
        gcd(b, a % b)
    }
}

/// The least common multiple, as the big-integer library computes it: the
/// first argument divided by the greatest common divisor, times the second;
/// zero when both arguments are zero.
pub open spec fn lcm(a: nat, b: nat) -> nat {
    if gcd(a, b) == 0 {
        0
    } else {
        (a / gcd(a, b)) * b
    }
}

/// The greatest common divisor is zero only for two zeros, and otherwise
/// divides both of its arguments.
pub proof fn lemma_gcd_divides(a: nat, b: nat)
    ensures
        gcd(a, b) == 0 <==> (a == 0 && b == 0),
        gcd(a, b) != 0 ==> a % gcd(a, b) == 0,
        gcd(a, b) != 0 ==> b % gcd(a, b) == 0,
    decreases b,
{
    if b == 0 {
        if a != 0 {
            vstd::arithmetic::div_mod::lemma_mod_self_0(a as int);
            vstd::arithmetic::div_mod::lemma_small_mod(0, a);
        }
    } else {
        lemma_gcd_divides(b, a % b);
        let gi = gcd(b, a % b) as int;
        let ai = a as int;
        let bi = b as int;
        assert(gi > 0);
        vstd::arithmetic::div_mod::lemma_fundamental_div_mod(ai, bi);
        vstd::arithmetic::div_mod::lemma_fundamental_div_mod(bi, gi);
        vstd::arithmetic::div_mod::lemma_fundamental_div_mod(ai % bi, gi);
        assert(bi == gi * (bi / gi));
        assert(ai % bi == gi * ((ai % bi) / gi));
        let k = (bi / gi) * (ai / bi) + (ai % bi) / gi;
        assert(ai == k * gi) by (nonlinear_arith)
            requires
                ai == bi * (ai / bi) + ai % bi,
                bi == gi * (bi / gi),
                ai % bi == gi * ((ai % bi) / gi),
                k == (bi / gi) * (ai / bi) + (ai % bi) / gi,
        ;
        vstd::arithmetic::div_mod::lemma_mod_multiples_basic(k, gi);
        assert(ai % gi == 0);
    }
}

/// The least common multiple of two positive numbers is positive and divides
/// their product; in particular `(p-1)*(q-1)` is always a multiple of
/// `lcm(p-1, q-1)`.
pub proof fn lemma_lcm_divides_product(a: nat, b: nat)
    requires
        a >= 1,
        b >= 1,
    ensures
        lcm(a, b) >= 1,
        (a * b) % lcm(a, b) == 0,
{
    lemma_gcd_divides(a, b);
    let g = gcd(a, b);
    assert(g >= 1);
    vstd::arithmetic::div_mod::lemma_fundamental_div_mod(a as int, g as int);
    let m = a / g;
    assert(a == g * m);
    assert(lcm(a, b) == m * b);
    assert(m >= 1) by (nonlinear_arith)
        requires
            a >= 1,
            a == g * m,
    ;
    assert(m * b >= 1) by (nonlinear_arith)
        requires
            m >= 1,
            b >= 1,
    ;
    assert(a * b == g * (m * b)) by (nonlinear_arith)
        requires
            a == g * m,
    ;
    vstd::arithmetic::div_mod::lemma_mod_multiples_basic(g as int, (m * b) as int);
    assert((g * (m * b)) % (m * b) == 0) by {
        vstd::arithmetic::mul::lemma_mul_is_commutative(g as int, (m * b) as int);
    }
}

} // verus!
