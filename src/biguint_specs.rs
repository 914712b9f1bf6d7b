use vstd::prelude::*;
use num::bigint::ToBigUint;
use num::BigUint;

verus! {

#[verifier::external_type_specification]
#[verifier::external_body]
pub struct ExBigUint(BigUint);

/// The arbitrary-precision unsigned integer whose value is `n`.
///
/// Every primitive conversion of num-bigint builds its result with `From` on
/// the value alone, so one name serves all of them.
pub uninterp spec fn big_uint_of(n: nat) -> BigUint;

/// Relies on num-bigint's `ToBigUint for u8`: it calls `FromPrimitive::from_u8`, which widens to `u64` and returns
/// `Some(BigUint::from(n))`.
#[verifier::external_body]
pub(crate) fn u8_to_big_uint(x: &u8) -> (r: Option<BigUint>)
    ensures
        r == Some(big_uint_of(*x as nat)),
{
    ToBigUint::to_biguint(x)
}

/// Relies on num-bigint's `ToBigUint for u16`: it calls `FromPrimitive::from_u16`, which widens to `u64` and returns
/// `Some(BigUint::from(n))`.
#[verifier::external_body]
pub(crate) fn u16_to_big_uint(x: &u16) -> (r: Option<BigUint>)
    ensures
        r == Some(big_uint_of(*x as nat)),
{
    ToBigUint::to_biguint(x)
}

/// Relies on num-bigint's `ToBigUint for u32`: it calls `FromPrimitive::from_u32`, which widens to `u64` and returns
/// `Some(BigUint::from(n))`.
#[verifier::external_body]
pub(crate) fn u32_to_big_uint(x: &u32) -> (r: Option<BigUint>)
    ensures
        r == Some(big_uint_of(*x as nat)),
{
    ToBigUint::to_biguint(x)
}

/// Relies on num-bigint's `ToBigUint for u64`: it calls `FromPrimitive::from_u64`, which returns `Some(BigUint::from(n))`.
#[verifier::external_body]
pub(crate) fn u64_to_big_uint(x: &u64) -> (r: Option<BigUint>)
    ensures
        r == Some(big_uint_of(*x as nat)),
{
    ToBigUint::to_biguint(x)
}

/// Relies on num-bigint's `ToBigUint for u128`: it calls `FromPrimitive::from_u128`, which returns `Some(BigUint::from(n))`.
#[verifier::external_body]
pub(crate) fn u128_to_big_uint(x: &u128) -> (r: Option<BigUint>)
    ensures
        r == Some(big_uint_of(*x as nat)),
{
    ToBigUint::to_biguint(x)
}

/// Relies on num-bigint's `ToBigUint for usize`: it calls `FromPrimitive::from_usize`, which widens to `u64` (always possible on
/// the 32- and 64-bit targets) and returns `Some(BigUint::from(n))`.
#[verifier::external_body]
pub(crate) fn usize_to_big_uint(x: &usize) -> (r: Option<BigUint>)
    ensures
        r == Some(big_uint_of(*x as nat)),
{
    ToBigUint::to_biguint(x)
}

} // verus!
