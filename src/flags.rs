//! Options of a query.

use vstd::prelude::*;

verus! {

/// The bit of the option that leaves private items out. It is carried with a query but
/// not yet applied by the resolution.
pub const EXCLUDE_PRIVATE: u32 = 1;

/// A set of query options, as bits.
#[derive(Clone, Copy, PartialEq, Eq, Debug)]
pub struct Flags {
    bits: u32,
}

impl Flags {
    /// The bits set.
    pub closed spec fn spec_bits(&self) -> u32 {
        self.bits
    }

    /// No option set.
    pub fn empty() -> (r: Flags)
        ensures
            r.spec_bits() == 0,
    {
        Flags { bits: 0 }
    }

    /// The options whose bits are set in `bits`; bits of no known option are dropped.
    pub fn from_bits_truncate(bits: u32) -> (r: Flags)
        ensures
            r.spec_bits() == bits & EXCLUDE_PRIVATE,
    {
        Flags { bits: bits & EXCLUDE_PRIVATE }
    }

    /// The bits set.
    pub fn bits(&self) -> (r: u32)
        ensures
            r == self.spec_bits(),
    {
        self.bits
    }

    /// Every option of `other` is set here too.
    pub fn contains(&self, other: Flags) -> (r: bool)
        ensures
            r == (self.spec_bits() & other.spec_bits() == other.spec_bits()),
    {
        self.bits & other.bits == other.bits
    }
}

/// The options a query has unless told otherwise: private items are left out.
pub fn default_flags() -> (r: Flags)
    ensures
        r.spec_bits() == EXCLUDE_PRIVATE,
{
    Flags { bits: EXCLUDE_PRIVATE }
}

} // verus!
