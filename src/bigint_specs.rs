use vstd::prelude::*;
use num::bigint::ToBigInt;
use num::BigInt;

verus! {

#[verifier::external_type_specification]
#[verifier::external_body]
pub struct ExBigInt(BigInt);

/// The arbitrary-precision signed integer whose value is `n`.
///
/// Every primitive conversion of num-bigint builds its result with `From` on
/// the value alone, so one name serves all of them.
pub uninterp spec fn big_int_of(n: int) -> BigInt;

/// Relies on num-bigint's `ToBigInt for i8`: it calls `FromPrimitive::from_i8`, which widens to `i64` and returns
/// `Some(BigInt::from(n))`.
#[verifier::external_body]
pub(crate) fn i8_to_big_int(x: &i8) -> (r: Option<BigInt>)
    ensures
        r == Some(big_int_of(*x as int)),
{
    ToBigInt::to_bigint(x)
}

/// Relies on num-bigint's `ToBigInt for i16`: it calls `FromPrimitive::from_i16`, which widens to `i64` and returns
/// `Some(BigInt::from(n))`.
#[verifier::external_body]
pub(crate) fn i16_to_big_int(x: &i16) -> (r: Option<BigInt>)
    ensures
        r == Some(big_int_of(*x as int)),
{
    ToBigInt::to_bigint(x)
}

/// Relies on num-bigint's `ToBigInt for i32`: it calls `FromPrimitive::from_i32`, which widens to `i64` and returns
/// `Some(BigInt::from(n))`.
#[verifier::external_body]
pub(crate) fn i32_to_big_int(x: &i32) -> (r: Option<BigInt>)
    ensures
        r == Some(big_int_of(*x as int)),
{
    ToBigInt::to_bigint(x)
}

/// Relies on num-bigint's `ToBigInt for i64`: it calls `FromPrimitive::from_i64`, which returns `Some(BigInt::from(n))`.
#[verifier::external_body]
pub(crate) fn i64_to_big_int(x: &i64) -> (r: Option<BigInt>)
    ensures
        r == Some(big_int_of(*x as int)),
{
    ToBigInt::to_bigint(x)
}

/// Relies on num-bigint's `ToBigInt for i128`: it calls `FromPrimitive::from_i128`, which returns `Some(BigInt::from(n))`.
#[verifier::external_body]
pub(crate) fn i128_to_big_int(x: &i128) -> (r: Option<BigInt>)
    ensures
        r == Some(big_int_of(*x as int)),
{
    ToBigInt::to_bigint(x)
}

/// Relies on num-bigint's `ToBigInt for isize`: it calls `FromPrimitive::from_isize`, which widens to `i64` (always possible on
/// the 32- and 64-bit targets) and returns `Some(BigInt::from(n))`.
#[verifier::external_body]
pub(crate) fn isize_to_big_int(x: &isize) -> (r: Option<BigInt>)
    ensures
        r == Some(big_int_of(*x as int)),
{
    ToBigInt::to_bigint(x)
}

/// Relies on num-bigint's `ToBigInt for u8`: it calls `FromPrimitive::from_u8`, which widens to `u64` and returns
/// `Some(BigInt::from(n))`.
#[verifier::external_body]
pub(crate) fn u8_to_big_int(x: &u8) -> (r: Option<BigInt>)
    ensures
        r == Some(big_int_of(*x as int)),
{
    ToBigInt::to_bigint(x)
}

/// Relies on num-bigint's `ToBigInt for u16`: it calls `FromPrimitive::from_u16`, which widens to `u64` and returns
/// `Some(BigInt::from(n))`.
#[verifier::external_body]
pub(crate) fn u16_to_big_int(x: &u16) -> (r: Option<BigInt>)
    ensures
        r == Some(big_int_of(*x as int)),
{
    ToBigInt::to_bigint(x)
}

/// Relies on num-bigint's `ToBigInt for u32`: it calls `FromPrimitive::from_u32`, which widens to `u64` and returns
/// `Some(BigInt::from(n))`.
#[verifier::external_body]
pub(crate) fn u32_to_big_int(x: &u32) -> (r: Option<BigInt>)
    ensures
        r == Some(big_int_of(*x as int)),
{
    ToBigInt::to_bigint(x)
}

/// Relies on num-bigint's `ToBigInt for u64`: it calls `FromPrimitive::from_u64`, which returns `Some(BigInt::from(n))`.
#[verifier::external_body]
pub(crate) fn u64_to_big_int(x: &u64) -> (r: Option<BigInt>)
    ensures
        r == Some(big_int_of(*x as int)),
{
    ToBigInt::to_bigint(x)
}

/// Relies on num-bigint's `ToBigInt for u128`: it calls `FromPrimitive::from_u128`, which returns `Some(BigInt::from(n))`.
#[verifier::external_body]
pub(crate) fn u128_to_big_int(x: &u128) -> (r: Option<BigInt>)
    ensures
        r == Some(big_int_of(*x as int)),
{
    ToBigInt::to_bigint(x)
}

/// Relies on num-bigint's `ToBigInt for usize`: it calls `FromPrimitive::from_usize`, which widens to `u64` (always possible on
/// the 32- and 64-bit targets) and returns `Some(BigInt::from(n))`.
#[verifier::external_body]
pub(crate) fn usize_to_big_int(x: &usize) -> (r: Option<BigInt>)
    ensures
        r == Some(big_int_of(*x as int)),
{
    ToBigInt::to_bigint(x)
}

} // verus!
