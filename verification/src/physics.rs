//! The collision world, consumed as an external capability: bodies are
//! registered, kept at their actor's position, and queried with swept-shape
//! casts. The world itself is opaque; its live body set and the result of a
//! cast are named, and every name is a function of the world value and the
//! arguments alone.

use vstd::prelude::*;

use crate::vec2::Vec2Bits;

use rapier2d::dynamics::RigidBodyBuilder;
use rapier2d::dynamics::RigidBodyHandle;
use rapier2d::geometry::ColliderBuilder;
use rapier2d::geometry::ColliderHandle;
use rapier2d::math::Pose;
use rapier2d::math::Vec2;
use rapier2d::math::Real;
use rapier2d::parry::query::ShapeCastOptions;
use rapier2d::pipeline::QueryFilter;

verus! {

#[verifier::external_type_specification]
#[verifier::external_body]
pub struct ExPhysicsWorld(rapier2d::pipeline::PhysicsWorld);

/// The raw parts (index, generation) of the rigid bodies live in a world.
pub uninterp spec fn world_bodies(w: rapier2d::pipeline::PhysicsWorld) -> Set<(u32, u32)>;

/// The position bits each live rigid body stands at in a world.
pub uninterp spec fn body_positions(w: rapier2d::pipeline::PhysicsWorld) -> Map<
    (u32, u32),
    (u32, u32),
>;

/// What a swept-shape cast returns: the earliest time of impact and the
/// contact normal on the hit collider, or nothing if the path is free, the
/// cast collider is absent, or every hit is excluded. A function of the
/// world value and the arguments alone.
pub uninterp spec fn cast_bits(
    w: rapier2d::pipeline::PhysicsWorld,
    pos: (u32, u32),
    vel: (u32, u32),
    shape: (u32, u32),
    target_distance: u32,
    max_toi: u32,
    stop_at_penetration: bool,
    compute_impact: bool,
    exclude: (u32, u32),
) -> Option<(u32, (u32, u32))>;

/// The collision world of one instance.
pub struct Physics {
    pub world: rapier2d::pipeline::PhysicsWorld,
}

impl Physics {
    /// Relies on PhysicsWorld::new: a world with empty body and collider
    /// sets.
    #[verifier::external_body]
    pub fn new() -> (r: Physics)
        ensures
            world_bodies(r.world) == Set::<(u32, u32)>::empty(),
            body_positions(r.world).dom() == Set::<(u32, u32)>::empty(),
    {
        Physics { world: rapier2d::pipeline::PhysicsWorld::new() }
    }

    /// Relies on PhysicsWorld::insert with a position-kinematic body and a
    /// ball collider: the generational arena returns a handle that was not
    /// live, now live. Returns the raw parts of the body and collider
    /// handles.
    #[verifier::external_body]
    pub fn insert_ball_body(&mut self, position: Vec2Bits, radius_bits: u32) -> (r: (
        (u32, u32),
        (u32, u32),
    ))
        ensures
            !world_bodies(old(self).world).contains(r.0),
            world_bodies(final(self).world) == world_bodies(old(self).world).insert(r.0),
            body_positions(final(self).world) == body_positions(old(self).world).insert(
                r.0,
                position.bits(),
            ),
    {
        let pos = Vec2::new(Real::from_bits(position.x), Real::from_bits(position.y));
        let (rb, col) = self.world.insert(
            RigidBodyBuilder::kinematic_position_based().translation(pos),
            ColliderBuilder::ball(Real::from_bits(radius_bits)),
        );
        (rb.into_raw_parts(), col.into_raw_parts())
    }

    /// Relies on PhysicsWorld::remove_body: the body and its attached
    /// colliders leave the world; an invalid handle is a no-op.
    #[verifier::external_body]
    pub fn remove_body(&mut self, rb: (u32, u32))
        ensures
            world_bodies(final(self).world) == world_bodies(old(self).world).remove(rb),
            body_positions(final(self).world) == body_positions(old(self).world).remove(rb),
    {
        self.world.remove_body(RigidBodyHandle::from_raw_parts(rb.0, rb.1));
    }

    /// Relies on RigidBody::set_position: moves the body to `position`,
    /// returning whether the handle was live. The set of live bodies is
    /// unchanged.
    #[verifier::external_body]
    pub fn set_body_position(&mut self, rb: (u32, u32), position: Vec2Bits) -> (found: bool)
        ensures
            world_bodies(final(self).world) == world_bodies(old(self).world),
            found == world_bodies(old(self).world).contains(rb),
            body_positions(final(self).world) == (if world_bodies(old(self).world).contains(rb) {
                body_positions(old(self).world).insert(rb, position.bits())
            } else {
                body_positions(old(self).world)
            }),
    {
        let pos = Vec2::new(Real::from_bits(position.x), Real::from_bits(position.y));
        match self.world.bodies.get_mut(RigidBodyHandle::from_raw_parts(rb.0, rb.1)) {
            Some(body) => {
                body.set_position(Pose::from_translation(pos), false);
                true
            },
            None => false,
        }
    }

    /// Relies on PhysicsWorld::detect_collisions: refreshes the collision
    /// structures after transforms were edited, so that subsequent queries
    /// see the current positions. The set of live bodies is unchanged.
    #[verifier::external_body]
    pub fn refresh(&mut self)
        ensures
            world_bodies(final(self).world) == world_bodies(old(self).world),
            body_positions(final(self).world) == body_positions(old(self).world),
    {
        self.world.detect_collisions(&(), &());
    }

    /// Relies on PhysicsWorld::cast_shape: sweeps the shape of the collider
    /// `shape` from `pos` along `vel`, ignoring hits on the body `exclude`,
    /// and reports the first time of impact with the world-space contact
    /// normal on the hit collider. Returns nothing when the path is free or
    /// the collider handle is not live.
    #[verifier::external_body]
    pub fn cast_shape(
        &self,
        pos: Vec2Bits,
        vel: Vec2Bits,
        shape: (u32, u32),
        target_distance: u32,
        max_toi: u32,
        stop_at_penetration: bool,
        compute_impact_geometry_on_penetration: bool,
        exclude: (u32, u32),
    ) -> (r: Option<(u32, Vec2Bits)>)
        ensures
            (match r {
                Some(hit) => cast_bits(
                    self.world,
                    pos.bits(),
                    vel.bits(),
                    shape,
                    target_distance,
                    max_toi,
                    stop_at_penetration,
                    compute_impact_geometry_on_penetration,
                    exclude,
                ) == Some((hit.0, hit.1.bits())),
                None => cast_bits(
                    self.world,
                    pos.bits(),
                    vel.bits(),
                    shape,
                    target_distance,
                    max_toi,
                    stop_at_penetration,
                    compute_impact_geometry_on_penetration,
                    exclude,
                ) is None,
            }),
    {
        let collider = self.world.colliders.get(ColliderHandle::from_raw_parts(shape.0, shape.1))?;
        let pose = Pose::from_translation(Vec2::new(Real::from_bits(pos.x), Real::from_bits(pos.y)));
        let (_, hit) = self.world.cast_shape(
            &pose,
            Vec2::new(Real::from_bits(vel.x), Real::from_bits(vel.y)),
            collider.shape(),
            ShapeCastOptions { max_time_of_impact: Real::from_bits(max_toi), target_distance: Real::from_bits(target_distance), stop_at_penetration, compute_impact_geometry_on_penetration },
            QueryFilter::default().exclude_rigid_body(RigidBodyHandle::from_raw_parts(exclude.0, exclude.1)),
        )?;
        Some((hit.time_of_impact.to_bits(), Vec2Bits { x: hit.normal1.x.to_bits(), y: hit.normal1.y.to_bits() }))
    }
}

} // verus!
