//! The C scalar types of the interface. An `unsigned long` is the machine word
//! on every target: thirty-two bits where pointers have thirty-two, sixty-four
//! where they have sixty-four.
use vstd::prelude::*;

verus! {

pub type c_int = i32;

pub type c_ulong = usize;

pub type pid_t = c_int;

pub type time_t = i64;

pub type suseconds_t = c_int;

/// The value of `x` as the kernel takes it: a machine word. A negative `x` is
/// sign-extended, as a C cast to an unsigned word does.
pub open spec fn word_of(x: int) -> usize {
    if x >= 0 {
        x as usize
    } else {
        (x + usize::MAX + 1) as usize
    }
}

/// The word for a value between -2^31 and 2^31.
fn word(x: i64) -> (w: usize)
    requires
        -0x8000_0000 <= x <= 0x8000_0000,
    ensures
        w == word_of(x as int),
{
    if x >= 0 {
        x as usize
    } else {
        let below: i64 = -(x + 1);
        usize::MAX - (below as usize)
    }
}

/// Converts a C `int` to the machine word the kernel is handed.
pub fn to_word(x: c_int) -> (w: usize)
    ensures
        w == word_of(x as int),
{
    word(x as i64)
}

/// Converts the negation of a C `int` to a machine word. The negation is taken
/// in the wider type, so it is defined for the least `int` too.
pub fn to_word_negated(x: c_int) -> (w: usize)
    ensures
        w == word_of(-(x as int)),
{
    word(-(x as i64))
}

} // verus!
