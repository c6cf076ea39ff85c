//! Filtering, handle encoding and answer policies of a spatial query layer
//! over a rigid-body world.
//!
//! The geometric queries themselves (ray casts, shape sweeps, point
//! projections) are performed by the physics engine; this library decides
//! which colliders take part in a query, how handles and interaction groups
//! are packed when they cross a host boundary, and how the answers of
//! host-side predicates and callbacks are interpreted.

mod answer;
mod filter;
mod groups;
mod handle;

pub use answer::{
    callback_continues, callback_verdict, lemma_policies_asymmetric, predicate_accepts,
    predicate_verdict, HostAnswer,
};
pub use filter::{
    flags_admit, has_flag, is_kinematic, lemma_disjoint_memberships_rejected,
    lemma_exclude_collider_exact, lemma_exclude_rigid_body_exact, lemma_unknown_flags_ignored,
    BodyKind, ColliderSnapshot, QueryFilter, EXCLUDE_DYNAMIC, EXCLUDE_FIXED, EXCLUDE_KINEMATIC,
    EXCLUDE_SENSORS, EXCLUDE_SOLIDS, RECOGNIZED_FLAGS,
};
pub use groups::{
    groups_interact, lemma_interact_symmetric, unpack_interaction_groups, InteractionGroups,
};
pub use handle::{flat_of, handle_from_flat, lemma_flat_injective, lemma_flat_round_trip, Handle};
