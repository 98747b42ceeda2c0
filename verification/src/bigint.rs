//! Trusted view of `num_bigint::BigInt`, the arbitrary-precision signed
//! integer type that carries field elements before modular reduction.
//!
//! Verus sees a `BigInt` as an opaque value; the spec function
//! `bigint_value` names the mathematical integer it holds, and every
//! trusted contract below speaks of a `BigInt` only through it.

use vstd::prelude::*;

verus! {

#[verifier::external_type_specification]
#[verifier::external_body]
pub struct ExBigInt(num_bigint::BigInt);

/// The mathematical integer held by a `BigInt`.
pub uninterp spec fn bigint_value(x: num_bigint::BigInt) -> int;

/// Relies on `num_bigint::BigInt`'s `Clone`: an exact copy of the value.
pub assume_specification[ <num_bigint::BigInt as Clone>::clone ](x: &num_bigint::BigInt) -> (r:
    num_bigint::BigInt)
    ensures
        r == *x,
;

/// Relies on `num_bigint::BigInt`'s `PartialEq`: representations are
/// canonical, so two values compare equal exactly when they hold the same
/// integer.
#[verifier::external_body]
pub fn bigint_eq(a: &num_bigint::BigInt, b: &num_bigint::BigInt) -> (r: bool)
    ensures
        r == (bigint_value(*a) == bigint_value(*b)),
{
    a == b
}

/// Relies on `num_bigint::BigInt`'s `Ord`: values are ordered numerically.
#[verifier::external_body]
pub fn bigint_lt(a: &num_bigint::BigInt, b: &num_bigint::BigInt) -> (r: bool)
    ensures
        r == (bigint_value(*a) < bigint_value(*b)),
{
    a < b
}

/// Relies on `num_bigint::BigInt`'s `Add`: exact integer addition.
#[verifier::external_body]
pub fn bigint_add(a: &num_bigint::BigInt, b: &num_bigint::BigInt) -> (r: num_bigint::BigInt)
    ensures
        bigint_value(r) == bigint_value(*a) + bigint_value(*b),
{
    a + b
}

/// Relies on `num_bigint::BigInt`'s `Sub`: exact integer subtraction.
#[verifier::external_body]
pub fn bigint_sub(a: &num_bigint::BigInt, b: &num_bigint::BigInt) -> (r: num_bigint::BigInt)
    ensures
        bigint_value(r) == bigint_value(*a) - bigint_value(*b),
{
    a - b
}

/// Relies on `num_bigint::BigInt`'s `Mul`: exact integer multiplication.
#[verifier::external_body]
pub fn bigint_mul(a: &num_bigint::BigInt, b: &num_bigint::BigInt) -> (r: num_bigint::BigInt)
    ensures
        bigint_value(r) == bigint_value(*a) * bigint_value(*b),
{
    a * b
}

/// Relies on `num_traits::Euclid::rem_euclid` for `BigInt`: for a positive
/// modulus the result is the non-negative remainder, the same operation as
/// `%` on mathematical integers here.
#[verifier::external_body]
pub fn bigint_rem_euclid(a: &num_bigint::BigInt, m: &num_bigint::BigInt) -> (r: num_bigint::BigInt)
    requires
        bigint_value(*m) > 0,
    ensures
        bigint_value(r) == bigint_value(*a) % bigint_value(*m),
{
    num_traits::Euclid::rem_euclid(a, m)
}

/// Relies on `num_bigint::BigInt`'s `From<u64>`: the same value, widened.
#[verifier::external_body]
pub fn bigint_from_u64(x: u64) -> (r: num_bigint::BigInt)
    ensures
        bigint_value(r) == x as int,
{
    num_bigint::BigInt::from(x)
}

} // verus!
