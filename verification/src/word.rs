//! Machine words read as signed numbers, as unsigned numbers and as bytes.

use vstd::prelude::*;

verus! {

/// The unsigned reading of a signed word.
pub open spec fn unsigned(v: int) -> int {
    if v < 0 {
        v + (usize::MAX + 1)
    } else {
        v
    }
}

/// The signed reading of an unsigned word.
pub open spec fn signed(v: int) -> int {
    if v > isize::MAX {
        v - (usize::MAX + 1)
    } else {
        v
    }
}

/// The unsigned reading of a signed word.
pub fn to_unsigned(v: isize) -> (r: usize)
    ensures
        r == unsigned(v as int),
{
    if v < 0 {
        usize::MAX - ((-(v + 1)) as usize)
    } else {
        v as usize
    }
}

/// The signed reading of an unsigned word.
pub fn to_signed(v: usize) -> (r: isize)
    ensures
        r == signed(v as int),
{
    if v > isize::MAX as usize {
        -((usize::MAX - v) as isize) - 1
    } else {
        v as isize
    }
}

/// The lowest byte of a word.
pub fn low_byte(v: usize) -> (r: u8)
    ensures
        r == v % 256,
{
    (v % 256) as u8
}

/// The two readings of a word are the same number, or one turn of the word apart, and each undoes
/// the other.
pub proof fn law_readings_of_a_word_agree(u: usize, s: isize, as_signed: isize, as_unsigned: usize)
    requires
        call_ensures(to_signed, (u,), as_signed),
        call_ensures(to_unsigned, (s,), as_unsigned),
    ensures
        as_signed == u || as_signed + usize::MAX + 1 == u,
        as_unsigned == s || as_unsigned == s + usize::MAX + 1,
        as_signed == s <==> as_unsigned == u,
{
}

} // verus!
