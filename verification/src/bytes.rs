//! Thirty-two byte strings: comparison, the all-zero string, and the
//! number that the leading bytes spell.

use vstd::prelude::*;

verus! {

/// Whether every byte is zero.
pub open spec fn zeroed(bytes: [u8; 32]) -> bool {
    forall|i: int| 0 <= i < 32 ==> bytes[i] == 0
}

/// The all-zero string.
pub open spec fn zero_bytes() -> [u8; 32] {
    vstd::array::spec_array_fill_for_copy_type::<u8, 32>(0u8)
}

/// The all-zero string is all zero.
pub proof fn lemma_zero_bytes()
    ensures
        zeroed(zero_bytes()),
{
    vstd::array::axiom_spec_array_fill_for_copy_type::<u8, 32>(0u8);
}

/// Whether two thirty-two byte strings hold the same bytes.
pub fn bytes_equal(a: &[u8; 32], b: &[u8; 32]) -> (same: bool)
    ensures
        same == (*a == *b),
{
    let mut i: usize = 0;
    while i < 32
        invariant
            i <= 32,
            forall|j: int| 0 <= j < i ==> a[j] == b[j],
        decreases 32 - i,
    {
        if a[i] != b[i] {
            return false;
        }
        i = i + 1;
    }
    assert(*a =~= *b);
    true
}

/// Whether a thirty-two byte string is the all-zero string.
pub fn is_zeroed(bytes: &[u8; 32]) -> (zero: bool)
    ensures
        zero == zeroed(*bytes),
{
    let mut i: usize = 0;
    while i < 32
        invariant
            i <= 32,
            forall|j: int| 0 <= j < i ==> bytes[j] == 0,
        decreases 32 - i,
    {
        if bytes[i] != 0 {
            return false;
        }
        i = i + 1;
    }
    true
}

/// There is one all-zero string.
pub proof fn lemma_zeroed_unique(bytes: [u8; 32])
    requires
        zeroed(bytes),
    ensures
        bytes == zero_bytes(),
{
    lemma_zero_bytes();
    assert(bytes =~= zero_bytes());
}

/// The number that a byte string spells when read with the least
/// significant byte first.
pub open spec fn le_value(bytes: Seq<u8>) -> nat
    decreases bytes.len(),
{
    if bytes.len() == 0 {
        0
    } else {
        bytes[0] as nat + 256 * le_value(bytes.skip(1))
    }
}

/// 256 to the power `n`.
pub open spec fn pow256(n: nat) -> nat
    decreases n,
{
    if n == 0 {
        1
    } else {
        256 * pow256((n - 1) as nat)
    }
}

/// A string of `n` bytes spells a number below 256 to the power `n`.
pub proof fn lemma_le_value_bound(bytes: Seq<u8>)
    ensures
        le_value(bytes) < pow256(bytes.len()),
    decreases bytes.len(),
{
    if bytes.len() > 0 {
        lemma_le_value_bound(bytes.skip(1));
    }
}

/// The first sixteen bytes of `buffer` as one number, least significant
/// byte first.
///
/// Trusted: `bytemuck::cast` hands back the thirty-two bytes as two words in
/// the machine's byte order, the first word made of the first sixteen bytes;
/// `u128::from_le` then reads that word as little-endian on every machine.
#[verifier::external_body]
pub(crate) fn leading_word(buffer: &[u8; 32]) -> (word: u128)
    ensures
        word as nat == le_value(buffer@.subrange(0, 16)),
{
    let words: [u128; 2] = bytemuck::cast(*buffer);
    u128::from_le(words[0])
}

} // verus!
