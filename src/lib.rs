//! Conversions from the primitive integer types to `num`'s arbitrary-precision
//! integers that cannot fail, so that callers have no `Option` to unwrap.
use vstd::prelude::*;

pub mod bigint_specs;
pub mod biguint_specs;
pub mod infallible_tobigint;
pub mod infallible_tobiguint;

pub use infallible_tobigint::InfallibleToBigInt;
pub use infallible_tobiguint::InfallibleToBigUint;
