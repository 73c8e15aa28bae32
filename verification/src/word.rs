use vstd::prelude::*;

verus! {

/// The low bits of `x` that fit in a machine word.
pub open spec fn low_word(x: u64) -> int {
    if usize::BITS == 64 {
        x as int
    } else {
        x as int % 0x1_0000_0000
    }
}

/// The number whose two's complement representation is that of `x`.
pub open spec fn signed_word(x: usize) -> isize {
    if x <= isize::MAX {
        x as isize
    } else {
        (x - usize::MAX - 1) as isize
    }
}

/// Cuts a 64-bit number down to a machine word.
pub(crate) fn to_word(x: u64) -> (r: usize)
    ensures
        r == low_word(x),
{
    assert(usize::BITS == 32 ==> x as usize == x % 0x1_0000_0000) by (bit_vector);
    #[verifier::truncate]
    (x as usize)
}

/// Reads a machine word as a signed one.
pub(crate) fn to_signed(x: usize) -> (r: isize)
    ensures
        r == signed_word(x),
{
    assert(usize::BITS == 64 ==> x as isize == if x <= 0x7fff_ffff_ffff_ffff {
        x as int
    } else {
        x - 0x1_0000_0000_0000_0000int
    }) by (bit_vector);
    assert(usize::BITS == 32 ==> x as isize == if x <= 0x7fff_ffff {
        x as int
    } else {
        x - 0x1_0000_0000
    }) by (bit_vector);
    #[verifier::truncate]
    (x as isize)
}

/// Cutting a number down to a machine word keeps what fits, and takes away whole multiples of what
/// a machine word can hold.
pub proof fn law_low_word_keeps_what_fits(x: u64)
    ensures
        0 <= low_word(x) <= usize::MAX,
        x <= usize::MAX ==> low_word(x) == x,
        usize::BITS == 32 ==> (x - low_word(x)) % 0x1_0000_0000 == 0,
{
}

/// Read as a signed word, a number keeps its value where it can, and is less by the number of all
/// words where it cannot; different words stay different.
pub proof fn law_signed_word_keeps_what_fits(x: usize, y: usize)
    ensures
        x <= isize::MAX ==> signed_word(x) == x,
        x > isize::MAX ==> signed_word(x) == x - usize::MAX - 1,
        signed_word(x) == signed_word(y) ==> x == y,
{
}

} // verus!
