//! The 256-bit machine word, which is `primitive_types::U256`, and what this
//! library takes for granted of it.

use vstd::prelude::*;
use primitive_types::U256;

verus! {

/// `primitive_types::U256`, a 256-bit unsigned integer. Only the items below
/// say anything of its values.
#[verifier::external_type_specification]
#[verifier::external_body]
pub struct ExU256(U256);

/// The number that a word stands for.
pub uninterp spec fn u256_value(word: U256) -> nat;

/// `U256::from` on a `usize`: the word that stands for the same number.
#[verifier::external_body]
pub(crate) fn u256_from_usize(value: usize) -> (word: U256)
    ensures
        u256_value(word) == value,
{
    U256::from(value)
}

/// The operator `>` of `U256`, which orders words by the numbers they stand for.
#[verifier::external_body]
pub(crate) fn u256_gt(left: &U256, right: &U256) -> (greater: bool)
    ensures
        greater == (u256_value(*left) > u256_value(*right)),
{
    left > right
}

/// The operator `-` of `U256`. It panics where the difference would be
/// negative, so such operands are left out; otherwise the result stands for the
/// difference.
#[verifier::external_body]
pub(crate) fn u256_sub(left: U256, right: U256) -> (difference: U256)
    requires
        u256_value(left) >= u256_value(right),
    ensures
        u256_value(difference) == u256_value(left) - u256_value(right),
{
    left - right
}

/// `U256::as_usize`. It panics on a word above `usize::MAX`, so such words are
/// left out; otherwise the result is the number the word stands for.
#[verifier::external_body]
pub(crate) fn u256_as_usize(word: &U256) -> (value: usize)
    requires
        u256_value(*word) <= usize::MAX,
    ensures
        value == u256_value(*word),
{
    word.as_usize()
}

} // verus!
