//! From a delivered buffer to a number, and from the number to a side.

use crate::bytes::{le_value, leading_word};
use vstd::prelude::*;

verus! {

/// The number that `word` gives under the bound `max_result`: between 1 and
/// the bound.
pub open spec fn number_of(word: nat, max_result: u64) -> nat {
    word % (max_result as nat) + 1
}

/// The number that a delivered buffer gives under the bound `max_result`:
/// its first sixteen bytes, least significant first, reduced to between 1
/// and the bound.
pub open spec fn number_drawn(buffer: [u8; 32], max_result: u64) -> nat {
    number_of(le_value(buffer@.subrange(0, 16)), max_result)
}

/// The side a number falls on: 0 or 1.
pub open spec fn parity_of(number: nat) -> u64 {
    (number % 2) as u64
}

/// Reduces a word to a number between 1 and `max_result`.
pub fn number_from_word(word: u128, max_result: u64) -> (number: u128)
    requires
        max_result >= 1,
    ensures
        number == number_of(word as nat, max_result),
        1 <= number <= max_result,
{
    word % (max_result as u128) + 1
}

/// Draws the number that `buffer` gives under the bound `max_result`.
pub fn draw(buffer: &[u8; 32], max_result: u64) -> (number: u128)
    requires
        max_result >= 1,
    ensures
        number == number_drawn(*buffer, max_result),
        1 <= number <= max_result,
{
    number_from_word(leading_word(buffer), max_result)
}

/// The side that `number` falls on.
pub fn parity(number: u128) -> (side: u64)
    ensures
        side == parity_of(number as nat),
        side <= 1,
{
    (number % 2) as u64
}

} // verus!
