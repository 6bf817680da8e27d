//! Numbers that are cut to a smaller range.

use vstd::prelude::*;

verus! {

/// The lowest 32 bits of a number, as an unsigned number.
pub open spec fn low_word(number: i64) -> u32 {
    (number as int % 0x1_0000_0000) as u32
}

/// The lowest 32 bits of `number`.
pub fn truncated(number: i64) -> (res: u32)
    ensures
        res == low_word(number),
{
    let res: u32 = #[verifier::truncate] (number as u32);
    assert(res == (number % 0x1_0000_0000i64)) by (bit_vector)
        requires
            res == number as u32,
    ;
    res
}

/// Cutting a number off changes it by a multiple of the range, so a number in the range stays as
/// it is.
pub proof fn cut_off_is_a_multiple_of_the_range(number: i64)
    ensures
        (number - low_word(number)) % 0x1_0000_0000 == 0,
        0 <= number < 0x1_0000_0000 ==> low_word(number) == number,
{
}

} // verus!
