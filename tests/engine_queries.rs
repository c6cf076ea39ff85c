use std::collections::BTreeSet;

use rapier3d::dynamics::{IslandManager, RigidBodyBuilder, RigidBodySet, RigidBodyType};
use rapier3d::geometry::{
    Collider, ColliderBuilder, ColliderHandle, ColliderSet, Group, InteractionGroups as EngineGroups,
    Ray,
};
use rapier3d::math::{Isometry, Point, Vector};
use rapier3d::parry::query::PointQuery;
use rapier3d::parry::shape::Ball;
use rapier3d::pipeline::{QueryFilter as EngineFilter, QueryPipeline};
use spatial_query::{
    callback_verdict, BodyKind, ColliderSnapshot, Handle, HostAnswer, InteractionGroups,
    QueryFilter, EXCLUDE_DYNAMIC,
};

struct World {
    islands: IslandManager,
    bodies: RigidBodySet,
    colliders: ColliderSet,
    pipeline: QueryPipeline,
}

impl World {
    fn new() -> World {
        World {
            islands: IslandManager::new(),
            bodies: RigidBodySet::new(),
            colliders: ColliderSet::new(),
            pipeline: QueryPipeline::new(),
        }
    }

    fn add_ball(&mut self, x: f32, y: f32, radius: f32) -> ColliderHandle {
        let c = ColliderBuilder::ball(radius).translation(Vector::new(x, y, 0.0)).build();
        self.colliders.insert(c)
    }

    fn update(&mut self) {
        self.pipeline.update(&self.islands, &self.bodies, &self.colliders);
    }
}

fn to_handle(h: ColliderHandle) -> Handle {
    let (i, g) = h.into_raw_parts();
    Handle::from_raw_parts(i, g)
}

fn kind_of(t: RigidBodyType) -> BodyKind {
    match t {
        RigidBodyType::Dynamic => BodyKind::Dynamic,
        RigidBodyType::Fixed => BodyKind::Fixed,
        RigidBodyType::KinematicPositionBased => BodyKind::KinematicPositionBased,
        RigidBodyType::KinematicVelocityBased => BodyKind::KinematicVelocityBased,
    }
}

fn snapshot(bodies: &RigidBodySet, c: &Collider) -> ColliderSnapshot {
    let parent = c.parent();
    let groups = c.collision_groups();
    ColliderSnapshot {
        parent: parent.map(|p| {
            let (i, g) = p.into_raw_parts();
            Handle::from_raw_parts(i, g)
        }),
        parent_kind: parent.and_then(|p| bodies.get(p)).map(|b| kind_of(b.body_type())),
        is_sensor: c.is_sensor(),
        groups: InteractionGroups::new(groups.memberships.bits(), groups.filter.bits()),
    }
}

fn cast_ray(w: &World, orig: [f32; 3], dir: [f32; 3], max_toi: f32, filter: &QueryFilter) -> Option<(Handle, f32)> {
    let bodies = &w.bodies;
    let pred = |h: ColliderHandle, c: &Collider| {
        filter.test::<fn(Handle) -> HostAnswer>(to_handle(h), &snapshot(bodies, c), None)
    };
    let ray = Ray::new(Point::new(orig[0], orig[1], orig[2]), Vector::new(dir[0], dir[1], dir[2]));
    w.pipeline
        .cast_ray(bodies, &w.colliders, &ray, max_toi, true, EngineFilter::default().predicate(&pred))
        .map(|(h, toi)| (to_handle(h), toi))
}

fn points_hits(w: &World, p: [f32; 3], filter: &QueryFilter) -> BTreeSet<(u32, u32)> {
    let bodies = &w.bodies;
    let pred = |h: ColliderHandle, c: &Collider| {
        filter.test::<fn(Handle) -> HostAnswer>(to_handle(h), &snapshot(bodies, c), None)
    };
    let mut found = BTreeSet::new();
    w.pipeline.intersections_with_point(
        bodies,
        &w.colliders,
        &Point::new(p[0], p[1], p[2]),
        EngineFilter::default().predicate(&pred),
        |h| {
            found.insert(h.into_raw_parts());
            callback_verdict(HostAnswer::Fault)
        },
    );
    found
}

fn near(a: f32, b: f32) -> bool {
    (a - b).abs() < 1.0e-3
}

#[test]
fn ray_hits_nearest_ball_then_next_when_excluded() {
    let mut w = World::new();
    let first = w.add_ball(0.0, 0.0, 1.0);
    let second = w.add_ball(5.0, 0.0, 1.0);
    w.update();
    let (h, toi) = cast_ray(&w, [-5.0, 0.0, 0.0], [1.0, 0.0, 0.0], 100.0, &QueryFilter::new_unrestricted())
        .unwrap();
    assert_eq!(h, to_handle(first));
    assert!(near(toi, 4.0));
    let f = QueryFilter::from_packed(0, None, Some(to_handle(first).into_flat()), None);
    let (h2, toi2) = cast_ray(&w, [-5.0, 0.0, 0.0], [1.0, 0.0, 0.0], 100.0, &f).unwrap();
    assert_eq!(h2, to_handle(second));
    assert!(near(toi2, 9.0));
}

#[test]
fn solid_ray_from_inside_hits_at_zero() {
    let mut w = World::new();
    let b = w.add_ball(0.0, 0.0, 2.0);
    w.update();
    let (h, toi) = cast_ray(&w, [0.5, 0.3, 0.0], [0.0, 1.0, 0.0], 10.0, &QueryFilter::new_unrestricted())
        .unwrap();
    assert_eq!(h, to_handle(b));
    assert_eq!(toi, 0.0);
}

#[test]
fn disjoint_group_is_never_returned() {
    let mut w = World::new();
    let hidden = ColliderBuilder::ball(1.0)
        .collision_groups(EngineGroups::new(Group::GROUP_3, Group::ALL))
        .build();
    let hidden = w.colliders.insert(hidden);
    let seen = w.add_ball(5.0, 0.0, 1.0);
    w.update();
    // memberships 0xffff, filter 0b11: group 3 is not in the filter.
    let f = QueryFilter::from_packed(0, Some(0xffff_0003), None, None);
    let (h, _) = cast_ray(&w, [-5.0, 0.0, 0.0], [1.0, 0.0, 0.0], 100.0, &f).unwrap();
    assert_eq!(h, to_handle(seen));
    assert!(points_hits(&w, [0.0, 0.0, 0.0], &f).is_empty());
    assert!(points_hits(&w, [0.0, 0.0, 0.0], &QueryFilter::new_unrestricted())
        .contains(&hidden.into_raw_parts()));
}

#[test]
fn point_enumeration_matches_per_collider_tests() {
    let mut w = World::new();
    w.add_ball(0.0, 0.0, 1.0);
    w.add_ball(0.5, 0.0, 1.0);
    w.add_ball(3.0, 0.0, 1.0);
    w.add_ball(0.0, 0.2, 0.5);
    w.update();
    for p in [[0.1f32, 0.1, 0.0], [3.0, 0.0, 0.0], [10.0, 0.0, 0.0], [1.2, 0.0, 0.0]] {
        let streamed = points_hits(&w, p, &QueryFilter::new_unrestricted());
        let pt = Point::new(p[0], p[1], p[2]);
        let direct: BTreeSet<(u32, u32)> = w
            .colliders
            .iter()
            .filter(|(_, c)| c.shape().contains_point(c.position(), &pt))
            .map(|(h, _)| h.into_raw_parts())
            .collect();
        assert_eq!(streamed, direct);
    }
}

#[test]
fn excluding_one_of_two_overlapping_colliders() {
    let mut w = World::new();
    let a = w.add_ball(0.0, 0.0, 1.0);
    let b = w.add_ball(0.2, 0.0, 1.0);
    w.update();
    let all = points_hits(&w, [0.1, 0.0, 0.0], &QueryFilter::new_unrestricted());
    assert_eq!(all.len(), 2);
    let f = QueryFilter::from_packed(0, None, Some(to_handle(a).into_flat()), None);
    let rest = points_hits(&w, [0.1, 0.0, 0.0], &f);
    assert_eq!(rest.len(), 1);
    assert!(rest.contains(&b.into_raw_parts()));
}

#[test]
fn zero_velocity_sweep_from_overlap_has_zero_toi() {
    let mut w = World::new();
    let target = w.add_ball(0.0, 0.0, 1.0);
    w.update();
    let bodies = &w.bodies;
    let filter = QueryFilter::new_unrestricted();
    let pred = |h: ColliderHandle, c: &Collider| {
        filter.test::<fn(Handle) -> HostAnswer>(to_handle(h), &snapshot(bodies, c), None)
    };
    let (h, toi) = w
        .pipeline
        .cast_shape(
            bodies,
            &w.colliders,
            &Isometry::translation(0.5, 0.0, 0.0),
            &Vector::new(0.0, 0.0, 0.0),
            &Ball::new(0.5),
            10.0,
            true,
            EngineFilter::default().predicate(&pred),
        )
        .unwrap();
    assert_eq!(h, target);
    assert_eq!(toi.toi, 0.0);
}

#[test]
fn refreshing_twice_gives_the_same_answers() {
    let mut w = World::new();
    w.add_ball(0.0, 0.0, 1.0);
    w.add_ball(5.0, 0.0, 1.0);
    w.update();
    let f = QueryFilter::new_unrestricted();
    let before = (cast_ray(&w, [-5.0, 0.0, 0.0], [1.0, 0.0, 0.0], 100.0, &f), points_hits(&w, [0.0, 0.0, 0.0], &f));
    w.update();
    let after = (cast_ray(&w, [-5.0, 0.0, 0.0], [1.0, 0.0, 0.0], 100.0, &f), points_hits(&w, [0.0, 0.0, 0.0], &f));
    assert_eq!(before, after);
}

#[test]
fn flags_drop_colliders_of_dynamic_bodies() {
    let mut w = World::new();
    let body = w.bodies.insert(RigidBodyBuilder::dynamic().build());
    let c = ColliderBuilder::ball(1.0).build();
    w.colliders.insert_with_parent(c, body, &mut w.bodies);
    let fixed = w.add_ball(5.0, 0.0, 1.0);
    w.update();
    let f = QueryFilter::from_packed(EXCLUDE_DYNAMIC, None, None, None);
    let (h, toi) = cast_ray(&w, [-5.0, 0.0, 0.0], [1.0, 0.0, 0.0], 100.0, &f).unwrap();
    assert_eq!(h, to_handle(fixed));
    assert!(near(toi, 9.0));
}
