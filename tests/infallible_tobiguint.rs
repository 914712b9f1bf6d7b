use infallible_to_big_int::InfallibleToBigUint;
use num::bigint::ToBigUint;
use num::BigUint;

/// MIN and MAX of u8 convert to what the underlying conversion gives.
#[test]
fn infallible_tobiguint_test_u8() {
    assert_eq!(
        InfallibleToBigUint::to_biguint(&u8::MIN),
        ToBigUint::to_biguint(&u8::MIN).unwrap()
    );
    assert_eq!(
        InfallibleToBigUint::to_biguint(&u8::MAX),
        ToBigUint::to_biguint(&u8::MAX).unwrap()
    );
}

/// MIN and MAX of u16 convert to what the underlying conversion gives.
#[test]
fn infallible_tobiguint_test_u16() {
    assert_eq!(
        InfallibleToBigUint::to_biguint(&u16::MIN),
        ToBigUint::to_biguint(&u16::MIN).unwrap()
    );
    assert_eq!(
        InfallibleToBigUint::to_biguint(&u16::MAX),
        ToBigUint::to_biguint(&u16::MAX).unwrap()
    );
}

/// MIN and MAX of u32 convert to what the underlying conversion gives.
#[test]
fn infallible_tobiguint_test_u32() {
    assert_eq!(
        InfallibleToBigUint::to_biguint(&u32::MIN),
        ToBigUint::to_biguint(&u32::MIN).unwrap()
    );
    assert_eq!(
        InfallibleToBigUint::to_biguint(&u32::MAX),
        ToBigUint::to_biguint(&u32::MAX).unwrap()
    );
}

/// MIN and MAX of u64 convert to what the underlying conversion gives.
#[test]
fn infallible_tobiguint_test_u64() {
    assert_eq!(
        InfallibleToBigUint::to_biguint(&u64::MIN),
        ToBigUint::to_biguint(&u64::MIN).unwrap()
    );
    assert_eq!(
        InfallibleToBigUint::to_biguint(&u64::MAX),
        ToBigUint::to_biguint(&u64::MAX).unwrap()
    );
}

/// MIN and MAX of u128 convert to what the underlying conversion gives.
#[test]
fn infallible_tobiguint_test_u128() {
    assert_eq!(
        InfallibleToBigUint::to_biguint(&u128::MIN),
        ToBigUint::to_biguint(&u128::MIN).unwrap()
    );
    assert_eq!(
        InfallibleToBigUint::to_biguint(&u128::MAX),
        ToBigUint::to_biguint(&u128::MAX).unwrap()
    );
}

/// MIN and MAX of usize convert to what the underlying conversion gives.
#[test]
fn infallible_tobiguint_test_usize() {
    assert_eq!(
        InfallibleToBigUint::to_biguint(&usize::MIN),
        ToBigUint::to_biguint(&usize::MIN).unwrap()
    );
    assert_eq!(
        InfallibleToBigUint::to_biguint(&usize::MAX),
        ToBigUint::to_biguint(&usize::MAX).unwrap()
    );
}

#[test]
fn u8_zero_is_big_uint_zero() {
    let r = InfallibleToBigUint::to_biguint(&0u8);
    assert_eq!(r, BigUint::from(0u32));
    assert_eq!(r.to_string(), "0");
}

#[test]
fn u8_max_is_big_uint_255() {
    let r = InfallibleToBigUint::to_biguint(&255u8);
    assert_eq!(r, BigUint::from(255u32));
    assert_eq!(r.to_string(), "255");
}

#[test]
fn usize_max_is_big_uint_of_that_maximum() {
    let r = InfallibleToBigUint::to_biguint(&usize::MAX);
    assert_eq!(r.to_string(), usize::MAX.to_string());
    assert_eq!(r, BigUint::from(usize::MAX));
}

#[test]
fn u128_max_is_not_truncated() {
    let r = InfallibleToBigUint::to_biguint(&u128::MAX);
    assert_eq!(r.to_string(), "340282366920938463463374607431768211455");
}

#[test]
fn same_value_of_different_unsigned_types_gives_equal_big_uints() {
    let a = InfallibleToBigUint::to_biguint(&153830u32);
    let b = InfallibleToBigUint::to_biguint(&153830u64);
    let c = InfallibleToBigUint::to_biguint(&153830usize);
    assert_eq!(a, b);
    assert_eq!(b, c);
    assert_eq!(a.to_string(), "153830");
}
