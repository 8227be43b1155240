//! Typed views over the raw, fixed-width machine words of the `x86` and
//! `x86_64` architectures: the flags register, segment selectors and
//! descriptors, task-state segments, and multi-level page-table entries.
//!
//! Every wrapper stores the exact bit pattern the processor expects and
//! exposes accessors whose contracts state the architectural bit layout.

use vstd::prelude::*;

mod bits;
pub mod registers;
pub mod structures;

verus! {

/// The 32-bit `x86` architecture: general registers are 32 bits wide.
#[derive(Clone, Copy, Debug)]
pub struct X86;

/// The 64-bit `x86_64` architecture: general registers are 64 bits wide.
#[derive(Clone, Copy, Debug)]
pub struct X86_64;

/// A protection ring level.
#[derive(Clone, Copy, Debug, Hash, PartialEq, Eq, PartialOrd, Ord)]
pub enum PrivilegeLevel {
    /// The most privileged ring, where critical system software runs.
    Ring0,
    /// A moderately high privileged ring.
    Ring1,
    /// A moderately low privileged ring.
    Ring2,
    /// The least privileged ring, where application software runs.
    Ring3,
}

/// The ring encoded by the two-bit pattern `n`.
///
/// Every two-bit pattern names a ring, so the mapping is total and
/// classifying a privilege field can never fail.
pub open spec fn spec_ring(n: int) -> PrivilegeLevel {
    if n == 0 {
        PrivilegeLevel::Ring0
    } else if n == 1 {
        PrivilegeLevel::Ring1
    } else if n == 2 {
        PrivilegeLevel::Ring2
    } else {
        PrivilegeLevel::Ring3
    }
}

impl PrivilegeLevel {
    /// The numeric value of this ring, 0 through 3.
    pub open spec fn spec_number(self) -> u8 {
        match self {
            PrivilegeLevel::Ring0 => 0,
            PrivilegeLevel::Ring1 => 1,
            PrivilegeLevel::Ring2 => 2,
            PrivilegeLevel::Ring3 => 3,
        }
    }

    /// Creates a [`PrivilegeLevel`] from a numeric value.
    ///
    /// This function returns [`None`] if `val` is greater than 3.
    pub fn from_u8(val: u8) -> (r: Option<Self>)
        ensures
            match r {
                Some(pl) => val <= 3 && pl == spec_ring(val as int),
                None => val > 3,
            },
    {
        match val {
            0 => Some(Self::Ring0),
            1 => Some(Self::Ring1),
            2 => Some(Self::Ring2),
            3 => Some(Self::Ring3),
            _ => None,
        }
    }

    /// Returns the numeric value of this ring, 0 through 3.
    pub fn as_u8(self) -> (r: u8)
        ensures
            r == self.spec_number(),
            r <= 3,
    {
        match self {
            PrivilegeLevel::Ring0 => 0,
            PrivilegeLevel::Ring1 => 1,
            PrivilegeLevel::Ring2 => 2,
            PrivilegeLevel::Ring3 => 3,
        }
    }
}

} // verus!
