//! Wide unsigned integers, as the surrounding arithmetic library holds them.
//!
//! The integers are `Uint` of `alloy_primitives`. Nothing in this module is
//! proved: each function below makes one call into that type, and its
//! contract is what the library believes of the call.

use alloy_primitives::{U256, U64};
use vstd::prelude::*;

verus! {

/// The fixed-size unsigned integer of the arithmetic library, carried through
/// as an opaque value.
#[verifier::external_type_specification]
#[verifier::external_body]
pub struct ExUint<const BITS: usize, const LIMBS: usize>(alloy_primitives::Uint<BITS, LIMBS>);

/// The number that a 256-bit integer holds.
pub uninterp spec fn u256_value(wide: U256) -> nat;

/// The number that a 64-bit integer of the arithmetic library holds.
pub uninterp spec fn uint64_value(word: U64) -> nat;

/// Two to the power of 64.
pub open spec fn two_to_64() -> nat {
    0x1_0000_0000_0000_0000
}

/// The low 64 bits of a 256-bit integer.
///
/// Calls `wrapping_to::<u64>`, which returns the lowest limb whether or not
/// the higher ones are zero. Believed: the result is the integer's number
/// modulo two to the power of 64.
#[verifier::external_body]
pub(crate) fn low_bits(wide: U256) -> (low: u64)
    ensures
        low == u256_value(wide) % two_to_64(),
{
    wide.wrapping_to::<u64>()
}

/// A 64-bit number as a 256-bit integer.
///
/// Calls `U256::from`, which cannot fail on a 64-bit number: it fills the
/// lowest limb and leaves the others zero. Believed: the result holds the
/// number.
#[verifier::external_body]
pub(crate) fn widen(number: u64) -> (wide: U256)
    ensures
        u256_value(wide) == number,
{
    U256::from(number)
}

/// A 64-bit number as a 64-bit integer of the arithmetic library.
///
/// Calls `U64::from`, which cannot fail on a 64-bit number. Believed: the
/// result holds the number.
#[verifier::external_body]
pub(crate) fn as_uint64(number: u64) -> (word: U64)
    ensures
        uint64_value(word) == number,
{
    U64::from(number)
}

} // verus!
