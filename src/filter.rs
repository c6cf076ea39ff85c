//! The query filter: which colliders take part in a scene query.
//!
//! A candidate passes iff it passes the exclusion flags, the interaction
//! groups, the explicit collider and rigid-body exclusions, and then the
//! user predicate, if any. The conditions are tested in that order and stop
//! at the first that fails, so the predicate is only consulted for
//! candidates that passed everything else.

use vstd::prelude::*;

use crate::answer::{predicate_accepts, predicate_verdict, HostAnswer};
use crate::groups::{groups_interact, unpack_interaction_groups, InteractionGroups};
use crate::handle::{handle_from_flat, Handle};

verus! {

/// Excludes colliders attached to a fixed body, and colliders attached to no
/// body at all.
pub const EXCLUDE_FIXED: u32 = 2;

/// Excludes colliders attached to a kinematic body.
pub const EXCLUDE_KINEMATIC: u32 = 4;

/// Excludes colliders attached to a dynamic body.
pub const EXCLUDE_DYNAMIC: u32 = 8;

/// Excludes sensor colliders.
pub const EXCLUDE_SENSORS: u32 = 16;

/// Excludes colliders that are not sensors.
pub const EXCLUDE_SOLIDS: u32 = 32;

/// Every recognised flag bit; other bits of a flag set are ignored.
pub const RECOGNIZED_FLAGS: u32 = 62;

/// How a rigid body moves.
#[derive(Clone, Copy, Debug, PartialEq, Eq, Structural)]
pub enum BodyKind {
    Dynamic,
    Fixed,
    KinematicPositionBased,
    KinematicVelocityBased,
}

pub open spec fn is_kinematic(k: BodyKind) -> bool {
    k is KinematicPositionBased || k is KinematicVelocityBased
}

/// What a filter reads of a candidate collider.
#[derive(Clone, Copy, Debug, PartialEq, Eq, Structural)]
pub struct ColliderSnapshot {
    /// The body the collider is attached to, if any.
    pub parent: Option<Handle>,
    /// The kind of that body, when the body is found in the world.
    pub parent_kind: Option<BodyKind>,
    /// Whether the collider is a sensor.
    pub is_sensor: bool,
    /// The collider's own interaction groups.
    pub groups: InteractionGroups,
}

pub open spec fn has_flag(flags: u32, flag: u32) -> bool {
    (flags & flag) != 0
}

/// Whether a flag set lets a collider through.
pub open spec fn flags_admit(flags: u32, c: ColliderSnapshot) -> bool {
    &&& !(has_flag(flags, EXCLUDE_SENSORS) && c.is_sensor)
    &&& !(has_flag(flags, EXCLUDE_SOLIDS) && !c.is_sensor)
    &&& !(has_flag(flags, EXCLUDE_FIXED) && c.parent is None)
    &&& match c.parent_kind {
        Some(k) => {
            &&& !(has_flag(flags, EXCLUDE_FIXED) && k is Fixed)
            &&& !(has_flag(flags, EXCLUDE_KINEMATIC) && is_kinematic(k))
            &&& !(has_flag(flags, EXCLUDE_DYNAMIC) && k is Dynamic)
        },
        None => true,
    }
}

/// Restricts which colliders a scene query considers.
#[derive(Clone, Copy, Debug, PartialEq, Eq, Structural)]
pub struct QueryFilter {
    /// Exclusion flags (`EXCLUDE_*`).
    pub flags: u32,
    /// If set, only colliders whose groups interact with these are kept.
    pub groups: Option<InteractionGroups>,
    /// If set, this collider is left out.
    pub exclude_collider: Option<Handle>,
    /// If set, every collider attached to this body is left out.
    pub exclude_rigid_body: Option<Handle>,
}

impl QueryFilter {
    /// Whether the candidate's groups interact with the filter's groups, or
    /// the filter has none.
    pub open spec fn groups_admit(self, c: ColliderSnapshot) -> bool {
        match self.groups {
            Some(g) => groups_interact(c.groups, g),
            None => true,
        }
    }

    /// Whether the candidate is neither the excluded collider nor attached
    /// to the excluded body.
    pub open spec fn exclusions_admit(self, h: Handle, c: ColliderSnapshot) -> bool {
        &&& self.exclude_collider != Some(h)
        &&& (self.exclude_rigid_body is None || self.exclude_rigid_body != c.parent)
    }

    /// Whether the candidate passes every condition but the predicate.
    pub open spec fn admits(self, h: Handle, c: ColliderSnapshot) -> bool {
        &&& flags_admit(self.flags, c)
        &&& self.groups_admit(c)
        &&& self.exclusions_admit(h, c)
    }

    /// A filter that lets every collider through.
    pub fn new_unrestricted() -> (r: QueryFilter)
        ensures
            r.flags == 0,
            r.groups is None,
            r.exclude_collider is None,
            r.exclude_rigid_body is None,
            forall|h: Handle, c: ColliderSnapshot| r.admits(h, c),
    {
        let r = QueryFilter {
            flags: 0,
            groups: None,
            exclude_collider: None,
            exclude_rigid_body: None,
        };
        assert forall|h: Handle, c: ColliderSnapshot| r.admits(h, c) by {
            assert(flags_admit(0, c)) by {
                assert(forall|f: u32| (0u32 & f) == 0u32) by (bit_vector);
            }
        }
        r
    }

    /// Builds a filter from the values a host hands over: a flag set, groups
    /// packed into one integer, and flat handles. Unknown flag bits are
    /// ignored.
    pub fn from_packed(
        flags: u32,
        groups: Option<u32>,
        exclude_collider: Option<u64>,
        exclude_rigid_body: Option<u64>,
    ) -> (r: QueryFilter)
        ensures
            r.flags == flags & RECOGNIZED_FLAGS,
            r.groups == match groups {
                Some(p) => Some(
                    InteractionGroups { memberships: (p / 0x1_0000) as u32, filter: (p % 0x1_0000) as u32 },
                ),
                None => None::<InteractionGroups>,
            },
            r.exclude_collider == match exclude_collider {
                Some(f) => Some(
                    Handle { index: (f % 0x1_0000_0000) as u32, generation: (f / 0x1_0000_0000) as u32 },
                ),
                None => None::<Handle>,
            },
            r.exclude_rigid_body == match exclude_rigid_body {
                Some(f) => Some(
                    Handle { index: (f % 0x1_0000_0000) as u32, generation: (f / 0x1_0000_0000) as u32 },
                ),
                None => None::<Handle>,
            },
    {
        let g = match groups {
            Some(p) => Some(unpack_interaction_groups(p)),
            None => None,
        };
        let ec = match exclude_collider {
            Some(f) => Some(handle_from_flat(f)),
            None => None,
        };
        let eb = match exclude_rigid_body {
            Some(f) => Some(handle_from_flat(f)),
            None => None,
        };
        QueryFilter {
            flags: flags & RECOGNIZED_FLAGS,
            groups: g,
            exclude_collider: ec,
            exclude_rigid_body: eb,
        }
    }

    /// Whether the exclusion flags let the candidate through.
    pub fn passes_flags(&self, c: &ColliderSnapshot) -> (r: bool)
        ensures
            r == flags_admit(self.flags, *c),
    {
        let flags = self.flags;
        if flags == 0 {
            assert(forall|f: u32| (0u32 & f) == 0u32) by (bit_vector);
            return true;
        }
        if ((flags & EXCLUDE_SENSORS) != 0 && c.is_sensor) || ((flags & EXCLUDE_SOLIDS) != 0
            && !c.is_sensor) {
            return false;
        }
        if (flags & EXCLUDE_FIXED) != 0 && c.parent.is_none() {
            return false;
        }
        match c.parent_kind {
            Some(k) => {
                let fixed = match k {
                    BodyKind::Fixed => true,
                    _ => false,
                };
                let kinematic = match k {
                    BodyKind::KinematicPositionBased => true,
                    BodyKind::KinematicVelocityBased => true,
                    _ => false,
                };
                let dynamic = match k {
                    BodyKind::Dynamic => true,
                    _ => false,
                };
                !(((flags & EXCLUDE_FIXED) != 0 && fixed) || ((flags & EXCLUDE_KINEMATIC) != 0
                    && kinematic) || ((flags & EXCLUDE_DYNAMIC) != 0 && dynamic))
            },
            None => true,
        }
    }

    /// Whether the interaction groups let the candidate through.
    pub fn passes_groups(&self, c: &ColliderSnapshot) -> (r: bool)
        ensures
            r == self.groups_admit(*c),
    {
        match self.groups {
            Some(g) => c.groups.test(g),
            None => true,
        }
    }

    /// Whether the explicit exclusions let the candidate through.
    pub fn passes_exclusions(&self, h: Handle, c: &ColliderSnapshot) -> (r: bool)
        ensures
            r == self.exclusions_admit(h, *c),
    {
        let not_excluded = match self.exclude_collider {
            Some(x) => x != h,
            None => true,
        };
        let body_ok = match self.exclude_rigid_body {
            None => true,
            Some(b) => match c.parent {
                Some(p) => b != p,
                None => true,
            },
        };
        not_excluded && body_ok
    }

    /// Whether the candidate passes flags, groups and exclusions.
    pub fn passes(&self, h: Handle, c: &ColliderSnapshot) -> (r: bool)
        ensures
            r == self.admits(h, *c),
    {
        self.passes_flags(c) && self.passes_groups(c) && self.passes_exclusions(h, c)
    }

    /// The full filter test. The predicate, if given, is called only for a
    /// candidate that passed every other condition, and keeps it only on an
    /// explicit `true`: a predicate that fails or gives no boolean rejects
    /// the candidate.
    pub fn test<F: Fn(Handle) -> HostAnswer>(
        &self,
        h: Handle,
        c: &ColliderSnapshot,
        predicate: Option<&F>,
    ) -> (r: bool)
        requires
            predicate matches Some(f) ==> f.requires((h,)),
        ensures
            !self.admits(h, *c) ==> !r,
            self.admits(h, *c) && predicate is None ==> r,
            self.admits(h, *c) && predicate is Some ==> (r ==> exists|a: HostAnswer|
                predicate.unwrap().ensures((h,), a) && predicate_accepts(a)),
            self.admits(h, *c) && predicate is Some ==> (!r ==> exists|a: HostAnswer|
                predicate.unwrap().ensures((h,), a) && !predicate_accepts(a)),
    {
        if !self.passes(h, c) {
            return false;
        }
        match predicate {
            None => true,
            Some(f) => {
                let a = f(h);
                predicate_verdict(a)
            },
        }
    }
}

/// A candidate whose memberships share no bit with the filter's group
/// filter is rejected, whatever else holds of it.
pub proof fn lemma_disjoint_memberships_rejected(
    filter: QueryFilter,
    h: Handle,
    c: ColliderSnapshot,
)
    requires
        filter.groups matches Some(g) && (c.groups.memberships & g.filter) == 0,
    ensures
        !filter.admits(h, c),
{
}

/// Excluding one collider handle removes exactly that collider: every other
/// candidate passes or fails as before.
pub proof fn lemma_exclude_collider_exact(filter: QueryFilter, x: Handle, h: Handle, c: ColliderSnapshot)
    requires
        filter.exclude_collider is None,
    ensures
        (QueryFilter { exclude_collider: Some(x), ..filter }).admits(h, c) == (filter.admits(h, c)
            && h != x),
{
}

/// Excluding one rigid body removes exactly the colliders attached to it:
/// every other candidate, and every collider attached to no body, passes or
/// fails as before.
pub proof fn lemma_exclude_rigid_body_exact(filter: QueryFilter, b: Handle, h: Handle, c: ColliderSnapshot)
    requires
        filter.exclude_rigid_body is None,
    ensures
        (QueryFilter { exclude_rigid_body: Some(b), ..filter }).admits(h, c) == (filter.admits(h, c)
            && c.parent != Some(b)),
{
}

/// Unknown flag bits change nothing: a flag set and its recognised bits let
/// the same colliders through.
pub proof fn lemma_unknown_flags_ignored(flags: u32, c: ColliderSnapshot)
    ensures
        flags_admit(flags & RECOGNIZED_FLAGS, c) == flags_admit(flags, c),
{
    assert(forall|f: u32, b: u32| #![auto]
        (b == 2u32 || b == 4u32 || b == 8u32 || b == 16u32 || b == 32u32) ==> (((f & 62u32) & b)
            != 0 <==> (f & b) != 0)) by (bit_vector);
}

} // verus!
