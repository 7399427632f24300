//! Failure codes, and the bridge from a kernel result to the C convention.
use vstd::prelude::*;
use crate::types::c_int;

verus! {

/// I/O error: a transfer moved fewer bytes than the record holds.
pub const EIO: c_int = 5;

/// Invalid argument: the request is not one this layer knows.
pub const EINVAL: c_int = 22;

/// A failure code reported by the kernel, or raised by this layer.
#[derive(Clone, Copy, Debug, PartialEq, Eq, Structural)]
pub struct Errno {
    pub code: c_int,
}

/// The error bridge: turns a result into the value a C caller gets.
///
/// A success value is handed through and the error slot is left alone. A
/// failure stores its code in the error slot and yields the all-ones word, which
/// every C return type reads as -1. Nothing else in this crate writes the slot.
pub fn e(sys: Result<usize, Errno>, errno: &mut c_int) -> (r: usize)
    ensures
        sys matches Ok(value) ==> r == value && *final(errno) == *old(errno),
        sys matches Err(err) ==> r == usize::MAX && *final(errno) == err.code,
{
    match sys {
        Ok(value) => value,
        Err(err) => {
            *errno = err.code;
            usize::MAX
        },
    }
}

} // verus!
