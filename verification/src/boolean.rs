//! The engine's two-valued truth type.
use vstd::prelude::*;

verus! {

/// A truth value as the engine's C interface spells it.
#[allow(non_camel_case_types)]
#[derive(Clone, Copy, Debug, PartialEq, Eq, Hash, Structural)]
pub enum NvttBoolean {
    NVTT_False,
    NVTT_True,
}

impl NvttBoolean {
    /// The truth value that `self` stands for.
    pub open spec fn as_bool(self) -> bool {
        self is NVTT_True
    }

    /// The number the C interface uses for `self`: 0 for false, 1 for true.
    pub open spec fn code(self) -> u32 {
        if self is NVTT_True { 1 } else { 0 }
    }

    /// The engine's spelling of `b`.
    pub fn from_bool(b: bool) -> (r: NvttBoolean)
        ensures
            r.as_bool() == b,
    {
        if b {
            NvttBoolean::NVTT_True
        } else {
            NvttBoolean::NVTT_False
        }
    }

    /// The Rust truth value of `self`.
    pub fn to_bool(self) -> (b: bool)
        ensures
            b == self.as_bool(),
    {
        match self {
            NvttBoolean::NVTT_True => true,
            NvttBoolean::NVTT_False => false,
        }
    }

    /// Logical negation.
    pub fn not(self) -> (r: NvttBoolean)
        ensures
            r.as_bool() == !self.as_bool(),
    {
        match self {
            NvttBoolean::NVTT_False => NvttBoolean::NVTT_True,
            NvttBoolean::NVTT_True => NvttBoolean::NVTT_False,
        }
    }

    /// Whether `self` and the Rust truth value `rhs` agree.
    pub fn eq_bool(self, rhs: bool) -> (r: bool)
        ensures
            r == (self.as_bool() == rhs),
    {
        self.to_bool() == rhs
    }
}

} // verus!
