use vstd::prelude::*;

verus! {

/// The machine's only value type: a 64-bit unsigned word.
pub type Word = u64;

/// Number of bits in one byte.
pub const BITS_PER_BYTE: usize = 8;

/// Number of bytes that make up one `Word`.
pub fn word_bytes() -> (r: usize)
    ensures
        r == 8,
{
    64 / BITS_PER_BYTE
}

} // verus!
