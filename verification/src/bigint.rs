//! Trusted bridge to the arbitrary-precision integers of `num_bigint_dig`.
//!
//! A `BigUint` is opaque to the verifier; `nat_of` names the natural number
//! it holds, and each wrapper states, over `nat_of`, exactly what the one
//! library operation it calls computes.

use vstd::prelude::*;

use num_bigint_dig::BigUint;
use num_bigint_dig::traits::ModInverse;
use num_integer::Integer;

use crate::arith::{gcd, lcm};
use crate::radix::{bit_len, radix_seq};

verus! {

#[verifier::external_type_specification]
#[verifier::external_body]
pub struct ExBigUint(BigUint);

/// The natural number that a `BigUint` holds.
pub uninterp spec fn nat_of(b: BigUint) -> nat;

/// Relies on `From<u64>` for `BigUint`: the value of the converted integer.
#[verifier::external_body]
pub(crate) fn biguint_from_u64(v: u64) -> (r: BigUint)
    ensures
        nat_of(r) == v,
{
    BigUint::from(v)
}

/// Relies on `Clone` for `BigUint`: an exact copy of the value.
#[verifier::external_body]
pub(crate) fn biguint_clone(a: &BigUint) -> (r: BigUint)
    ensures
        nat_of(r) == nat_of(*a),
{
    a.clone()
}

/// Relies on `Sub<u8>` for `&BigUint`: exact big-integer subtraction. It
/// panics on underflow, which the precondition rules out.
#[verifier::external_body]
pub(crate) fn biguint_sub_one(a: &BigUint) -> (r: BigUint)
    requires
        nat_of(*a) >= 1,
    ensures
        nat_of(r) == nat_of(*a) - 1,
{
    a - 1u8
}

/// Relies on `Mul` for `&BigUint`: exact big-integer multiplication.
#[verifier::external_body]
pub(crate) fn biguint_mul(a: &BigUint, b: &BigUint) -> (r: BigUint)
    ensures
        nat_of(r) == nat_of(*a) * nat_of(*b),
{
    a * b
}

/// Relies on `Rem` for `&BigUint`: the remainder of exact division. It
/// panics on a zero divisor, which the precondition rules out.
#[verifier::external_body]
pub(crate) fn biguint_rem(a: &BigUint, m: &BigUint) -> (r: BigUint)
    requires
        nat_of(*m) >= 1,
    ensures
        nat_of(r) == nat_of(*a) % nat_of(*m),
{
    a % m
}

/// Relies on `num_bigint_dig::traits::ModInverse` for `&BigUint`: a result
/// comes back exactly when the extended Euclidean algorithm finds a gcd of
/// one, and it is then the Bezout coefficient of `a`, shifted by `m` when
/// negative, hence a modular inverse of `a` below `m`.
#[verifier::external_body]
pub(crate) fn biguint_mod_inverse(a: &BigUint, m: &BigUint) -> (r: Option<BigUint>)
    requires
        nat_of(*m) >= 2,
    ensures
        r is Some <==> gcd(nat_of(*a), nat_of(*m)) == 1,
        r matches Some(i) ==> (nat_of(i) * nat_of(*a)) % nat_of(*m) == 1,
        r matches Some(i) ==> nat_of(i) < nat_of(*m),
{
    a.mod_inverse(m).and_then(|i| i.to_biguint())
}

/// Relies on `num_integer::Integer::lcm` for `BigUint`: the first argument
/// divided by the greatest common divisor, times the second. A zero first
/// argument together with a zero second would divide by zero, which the
/// precondition rules out.
#[verifier::external_body]
pub(crate) fn biguint_lcm(a: &BigUint, b: &BigUint) -> (r: BigUint)
    requires
        nat_of(*a) >= 1,
    ensures
        nat_of(r) == lcm(nat_of(*a), nat_of(*b)),
{
    a.lcm(b)
}

/// Relies on `BigUint::to_str_radix`: digits in the given base, most
/// significant first, no leading zeros, lowercase letters, and `"0"` for
/// zero.
#[verifier::external_body]
pub(crate) fn biguint_to_str_radix(a: &BigUint, radix: u32) -> (r: String)
    requires
        radix == 10 || radix == 16,
    ensures
        r@ == radix_seq(nat_of(*a), radix as nat),
{
    a.to_str_radix(radix)
}

/// Relies on `BigUint::bits`: the number of bits needed to represent the
/// value, zero for zero.
#[verifier::external_body]
pub(crate) fn biguint_bits(a: &BigUint) -> (r: usize)
    ensures
        r == bit_len(nat_of(*a)),
{
    a.bits()
}

} // verus!
