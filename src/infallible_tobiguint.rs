use vstd::prelude::*;
use num::BigUint;
use crate::biguint_specs::{
    big_uint_of,
    u8_to_big_uint,
    u16_to_big_uint,
    u32_to_big_uint,
    u64_to_big_uint,
    u128_to_big_uint,
    usize_to_big_uint,
};

verus! {

/// Conversion to `BigUint` that cannot fail.
///
/// Implemented for exactly the unsigned integer types, whose every value a
/// `BigUint` represents: `u8`, `u16`, `u32`, `u64`, `u128` and `usize`. Signed
/// types and floats are left out on purpose: a negative, fractional or
/// non-finite value has no exact `BigUint`.
pub trait InfallibleToBigUint {
    /// The integer value of `self`.
    spec fn nat_value(&self) -> nat;

    /// Converts `self` to the `BigUint` of the same value. Never fails.
    fn to_biguint(&self) -> (r: BigUint)
        ensures
            r == big_uint_of(self.nat_value()),
    ;
}

/// Values of any two of the supported types that hold the same integer convert
/// to the same `BigUint`: the result depends on the value alone, not on its type.
pub proof fn lemma_same_value_same_big_uint<A: InfallibleToBigUint, B: InfallibleToBigUint>(
    a: &A,
    b: &B,
)
    requires
        a.nat_value() == b.nat_value(),
    ensures
        big_uint_of(a.nat_value()) == big_uint_of(b.nat_value()),
{
}

impl InfallibleToBigUint for u8 {
    open spec fn nat_value(&self) -> nat {
        *self as nat
    }

    fn to_biguint(&self) -> (r: BigUint)
        ensures
            r == big_uint_of(*self as nat),
    {
        u8_to_big_uint(self).expect("to_biguint failed for u8, this should not happen and is most likely a programming error")
    }
}

impl InfallibleToBigUint for u16 {
    open spec fn nat_value(&self) -> nat {
        *self as nat
    }

    fn to_biguint(&self) -> (r: BigUint)
        ensures
            r == big_uint_of(*self as nat),
    {
        u16_to_big_uint(self).expect("to_biguint failed for u16, this should not happen and is most likely a programming error")
    }
}

impl InfallibleToBigUint for u32 {
    open spec fn nat_value(&self) -> nat {
        *self as nat
    }

    fn to_biguint(&self) -> (r: BigUint)
        ensures
            r == big_uint_of(*self as nat),
    {
        u32_to_big_uint(self).expect("to_biguint failed for u32, this should not happen and is most likely a programming error")
    }
}

impl InfallibleToBigUint for u64 {
    open spec fn nat_value(&self) -> nat {
        *self as nat
    }

    fn to_biguint(&self) -> (r: BigUint)
        ensures
            r == big_uint_of(*self as nat),
    {
        u64_to_big_uint(self).expect("to_biguint failed for u64, this should not happen and is most likely a programming error")
    }
}

impl InfallibleToBigUint for u128 {
    open spec fn nat_value(&self) -> nat {
        *self as nat
    }

    fn to_biguint(&self) -> (r: BigUint)
        ensures
            r == big_uint_of(*self as nat),
    {
        u128_to_big_uint(self).expect("to_biguint failed for u128, this should not happen and is most likely a programming error")
    }
}

impl InfallibleToBigUint for usize {
    open spec fn nat_value(&self) -> nat {
        *self as nat
    }

    fn to_biguint(&self) -> (r: BigUint)
        ensures
            r == big_uint_of(*self as nat),
    {
        usize_to_big_uint(self).expect("to_biguint failed for usize, this should not happen and is most likely a programming error")
    }
}

} // verus!
