use vstd::prelude::*;
use num::BigInt;
use crate::bigint_specs::{
    big_int_of,
    i8_to_big_int,
    i16_to_big_int,
    i32_to_big_int,
    i64_to_big_int,
    i128_to_big_int,
    isize_to_big_int,
    u8_to_big_int,
    u16_to_big_int,
    u32_to_big_int,
    u64_to_big_int,
    u128_to_big_int,
    usize_to_big_int,
};

verus! {

/// Conversion to `BigInt` that cannot fail.
///
/// Implemented for exactly the integer types whose every value a `BigInt`
/// represents: `i8`, `i16`, `i32`, `i64`, `i128`, `isize`, `u8`, `u16`, `u32`,
/// `u64`, `u128` and `usize`. Floats are left out on purpose: a fraction or a
/// non-finite value has no exact `BigInt`.
pub trait InfallibleToBigInt {
    /// The integer value of `self`.
    spec fn int_value(&self) -> int;

    /// Converts `self` to the `BigInt` of the same value. Never fails.
    fn to_bigint(&self) -> (r: BigInt)
        ensures
            r == big_int_of(self.int_value()),
    ;
}

/// Values of any two of the supported types that hold the same integer convert
/// to the same `BigInt`: the result depends on the value alone, not on its type.
pub proof fn lemma_same_value_same_big_int<A: InfallibleToBigInt, B: InfallibleToBigInt>(
    a: &A,
    b: &B,
)
    requires
        a.int_value() == b.int_value(),
    ensures
        big_int_of(a.int_value()) == big_int_of(b.int_value()),
{
}

impl InfallibleToBigInt for i8 {
    open spec fn int_value(&self) -> int {
        *self as int
    }

    fn to_bigint(&self) -> (r: BigInt)
        ensures
            r == big_int_of(*self as int),
    {
        i8_to_big_int(self).expect("to_bigint failed for i8, this should not happen and is most likely a programming error")
    }
}

impl InfallibleToBigInt for i16 {
    open spec fn int_value(&self) -> int {
        *self as int
    }

    fn to_bigint(&self) -> (r: BigInt)
        ensures
            r == big_int_of(*self as int),
    {
        i16_to_big_int(self).expect("to_bigint failed for i16, this should not happen and is most likely a programming error")
    }
}

impl InfallibleToBigInt for i32 {
    open spec fn int_value(&self) -> int {
        *self as int
    }

    fn to_bigint(&self) -> (r: BigInt)
        ensures
            r == big_int_of(*self as int),
    {
        i32_to_big_int(self).expect("to_bigint failed for i32, this should not happen and is most likely a programming error")
    }
}

impl InfallibleToBigInt for i64 {
    open spec fn int_value(&self) -> int {
        *self as int
    }

    fn to_bigint(&self) -> (r: BigInt)
        ensures
            r == big_int_of(*self as int),
    {
        i64_to_big_int(self).expect("to_bigint failed for i64, this should not happen and is most likely a programming error")
    }
}

impl InfallibleToBigInt for i128 {
    open spec fn int_value(&self) -> int {
        *self as int
    }

    fn to_bigint(&self) -> (r: BigInt)
        ensures
            r == big_int_of(*self as int),
    {
        i128_to_big_int(self).expect("to_bigint failed for i128, this should not happen and is most likely a programming error")
    }
}

impl InfallibleToBigInt for isize {
    open spec fn int_value(&self) -> int {
        *self as int
    }

    fn to_bigint(&self) -> (r: BigInt)
        ensures
            r == big_int_of(*self as int),
    {
        isize_to_big_int(self).expect("to_bigint failed for isize, this should not happen and is most likely a programming error")
    }
}

impl InfallibleToBigInt for u8 {
    open spec fn int_value(&self) -> int {
        *self as int
    }

    fn to_bigint(&self) -> (r: BigInt)
        ensures
            r == big_int_of(*self as int),
    {
        u8_to_big_int(self).expect("to_bigint failed for u8, this should not happen and is most likely a programming error")
    }
}

impl InfallibleToBigInt for u16 {
    open spec fn int_value(&self) -> int {
        *self as int
    }

    fn to_bigint(&self) -> (r: BigInt)
        ensures
            r == big_int_of(*self as int),
    {
        u16_to_big_int(self).expect("to_bigint failed for u16, this should not happen and is most likely a programming error")
    }
}

impl InfallibleToBigInt for u32 {
    open spec fn int_value(&self) -> int {
        *self as int
    }

    fn to_bigint(&self) -> (r: BigInt)
        ensures
            r == big_int_of(*self as int),
    {
        u32_to_big_int(self).expect("to_bigint failed for u32, this should not happen and is most likely a programming error")
    }
}

impl InfallibleToBigInt for u64 {
    open spec fn int_value(&self) -> int {
        *self as int
    }

    fn to_bigint(&self) -> (r: BigInt)
        ensures
            r == big_int_of(*self as int),
    {
        u64_to_big_int(self).expect("to_bigint failed for u64, this should not happen and is most likely a programming error")
    }
}

impl InfallibleToBigInt for u128 {
    open spec fn int_value(&self) -> int {
        *self as int
    }

    fn to_bigint(&self) -> (r: BigInt)
        ensures
            r == big_int_of(*self as int),
    {
        u128_to_big_int(self).expect("to_bigint failed for u128, this should not happen and is most likely a programming error")
    }
}

impl InfallibleToBigInt for usize {
    open spec fn int_value(&self) -> int {
        *self as int
    }

    fn to_bigint(&self) -> (r: BigInt)
        ensures
            r == big_int_of(*self as int),
    {
        usize_to_big_int(self).expect("to_bigint failed for usize, this should not happen and is most likely a programming error")
    }
}

} // verus!
