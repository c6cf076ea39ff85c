//! Interaction groups: which colliders a query may see, by bit masks.

use vstd::prelude::*;

verus! {

/// A pair of 32-bit masks: the groups a party belongs to, and the groups it
/// is willing to interact with.
#[derive(Clone, Copy, Debug, PartialEq, Eq, Structural, Hash)]
pub struct InteractionGroups {
    pub memberships: u32,
    pub filter: u32,
}

/// Two parties interact iff each one's memberships share a bit with the
/// other's filter.
pub open spec fn groups_interact(a: InteractionGroups, b: InteractionGroups) -> bool {
    (a.memberships & b.filter) != 0 && (b.memberships & a.filter) != 0
}

impl InteractionGroups {
    /// Groups with the given memberships and filter.
    pub fn new(memberships: u32, filter: u32) -> (r: InteractionGroups)
        ensures
            r.memberships == memberships,
            r.filter == filter,
    {
        InteractionGroups { memberships, filter }
    }

    /// Whether `self` and `rhs` are allowed to interact.
    pub fn test(self, rhs: InteractionGroups) -> (r: bool)
        ensures
            r == groups_interact(self, rhs),
    {
        (self.memberships & rhs.filter) != 0 && (rhs.memberships & self.filter) != 0
    }
}

/// Unpacks groups carried in one 32-bit value: the memberships in the high
/// 16 bits, the filter in the low 16 bits.
pub fn unpack_interaction_groups(packed: u32) -> (r: InteractionGroups)
    ensures
        r.memberships == packed / 0x1_0000,
        r.filter == packed % 0x1_0000,
{
    let m: u32 = packed >> 16u32;
    let f: u32 = packed & 0xffffu32;
    assert(m == packed / 0x1_0000u32 && f == packed % 0x1_0000u32) by (bit_vector)
        requires
            m == packed >> 16u32,
            f == packed & 0xffffu32,
    ;
    InteractionGroups { memberships: m, filter: f }
}

/// Interaction is symmetric.
pub proof fn lemma_interact_symmetric(a: InteractionGroups, b: InteractionGroups)
    ensures
        groups_interact(a, b) == groups_interact(b, a),
{
}

} // verus!
