//! Guild permission bitsets.
use vstd::prelude::*;

verus! {

/// Permission to kick members.
pub const KICK_MEMBERS: u64 = 2;

/// Permission to ban members.
pub const BAN_MEMBERS: u64 = 4;

/// Permission to time out members.
pub const MODERATE_MEMBERS: u64 = 1099511627776;

/// A set of guild permissions, one bit per permission.
#[derive(Clone, Copy, Debug, PartialEq, Eq, Structural)]
pub struct Permissions {
    pub bits: u64,
}

/// `a` holds every bit of `b`.
pub open spec fn holds_all(a: u64, b: u64) -> bool {
    a & b == b
}

impl Permissions {
    /// The set without any permission.
    pub fn empty() -> (r: Permissions)
        ensures
            r.bits == 0,
    {
        Permissions { bits: 0 }
    }

    /// The set whose bits are `bits`.
    pub fn from_bits(bits: u64) -> (r: Permissions)
        ensures
            r.bits == bits,
    {
        Permissions { bits }
    }

    /// Whether every permission of `other` is in `self`.
    pub fn contains(&self, other: Permissions) -> (r: bool)
        ensures
            r == holds_all(self.bits, other.bits),
    {
        self.bits & other.bits == other.bits
    }

    /// The permissions in `self` or in `other`.
    pub fn union(&self, other: Permissions) -> (r: Permissions)
        ensures
            r.bits == self.bits | other.bits,
    {
        Permissions { bits: self.bits | other.bits }
    }

    /// The permissions in `self` and not in `other`.
    pub fn difference(&self, other: Permissions) -> (r: Permissions)
        ensures
            r.bits == self.bits & !other.bits,
    {
        Permissions { bits: self.bits & !other.bits }
    }
}

} // verus!
