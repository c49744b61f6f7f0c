//! Numbers that cross the C interface as `int`.
//!
//! The engine counts sizes and extents in the C type `int`, the Rust side in
//! `usize` and `u32`. A number goes from one to the other with its bits
//! unchanged, as a C cast would take it.
use vstd::prelude::*;

verus! {

/// The value that a number of the C type `int` takes when it is read as a
/// size: itself where it is not negative, else the size that has the same
/// bits.
pub open spec fn extent(v: i32) -> usize {
    if v >= 0 {
        v as usize
    } else {
        (usize::MAX + 1 + v) as usize
    }
}

/// The value that an unsigned number takes when it is passed as the C type
/// `int`: itself where it fits, else the negative number with the same bits.
pub open spec fn as_int(v: u32) -> i32 {
    if v <= i32::MAX {
        v as i32
    } else {
        (v - 0x1_0000_0000) as i32
    }
}

/// Reads a number of the C type `int` as a size, keeping its bits.
pub fn size_from_native(v: i32) -> (n: usize)
    ensures
        n == extent(v),
        v >= 0 ==> n == v,
{
    if v >= 0 {
        v as usize
    } else {
        usize::MAX - ((-(v + 1)) as usize)
    }
}

/// Passes an unsigned number as the C type `int`, keeping its bits.
pub fn int_from_native(v: u32) -> (n: i32)
    ensures
        n == as_int(v),
        v <= i32::MAX ==> n == v,
{
    if v <= 0x7fff_ffff {
        v as i32
    } else {
        (v as i64 - 0x1_0000_0000) as i32
    }
}

/// An extent that the engine can count comes back from it unchanged.
pub proof fn lemma_extent_of_int(v: u32)
    requires
        v <= i32::MAX,
    ensures
        extent(as_int(v)) == v,
{
}

} // verus!
