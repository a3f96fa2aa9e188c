//! The physical side of an entity: a collision world that hands out bodies,
//! and the body itself — position, rotation, velocity and a rectangular
//! collision footprint, advanced one integration step per frame.

use vstd::prelude::*;

use crate::math::{Rect, Vec2i, Vec2u};
use crate::sprite::DrawCommand;

verus! {

/// The shared collision world. It owns the colliders of every allocated
/// body; it is borrowed mutably only for the duration of an allocation and
/// never held across calls.
pub struct CollisionWorld {
    pub colliders: Vec<Rect>,
}

impl CollisionWorld {
    /// An empty collision world.
    pub fn new() -> (w: CollisionWorld)
        ensures
            w.colliders@ == Seq::<Rect>::empty(),
    {
        CollisionWorld { colliders: Vec::new() }
    }
}

/// A physical body: exclusively owned by one entity, advanced once per frame.
#[derive(Clone, Copy, Debug, PartialEq, Eq, Structural)]
pub struct PhysicsBody {
    /// World position (the collider's top-left anchor).
    pub position: Vec2i,
    /// Rotation, in whole degrees.
    pub rotation: i32,
    /// Velocity, in world units per frame.
    pub velocity: Vec2i,
    /// Collision footprint (width, height).
    pub size: Vec2u,
    /// The collider slot this body occupies in the collision world.
    pub collider: usize,
    /// Whether the body takes part in collisions (solid).
    pub collidable: bool,
    /// Whether the body moves (non-static).
    pub dynamic: bool,
}

impl PhysicsBody {
    /// The body's collision rectangle: anchored at the position, as wide and
    /// high as the footprint.
    pub open spec fn spec_collider_rect(self) -> Rect {
        Rect { x: self.position.x, y: self.position.y, w: self.size.x, h: self.size.y }
    }

    /// Whether one integration step stays within the coordinate range.
    pub open spec fn can_step(self) -> bool {
        &&& i32::MIN <= self.position.x + self.velocity.x <= i32::MAX
        &&& i32::MIN <= self.position.y + self.velocity.y <= i32::MAX
    }

    /// The body after one integration step: the position advanced by exactly
    /// the velocity, everything else unchanged.
    pub open spec fn stepped(self) -> PhysicsBody {
        PhysicsBody {
            position: Vec2i {
                x: (self.position.x + self.velocity.x) as i32,
                y: (self.position.y + self.velocity.y) as i32,
            },
            ..self
        }
    }

    /// Allocate a new body in the shared collision world, registering its
    /// collision rectangle there. The body starts at rest.
    pub fn new(
        world: &mut CollisionWorld,
        position: Vec2i,
        rotation: i32,
        size: Vec2u,
        collidable: bool,
        dynamic: bool,
    ) -> (b: PhysicsBody)
        ensures
            b.position == position,
            b.rotation == rotation,
            b.velocity == (Vec2i { x: 0, y: 0 }),
            b.size == size,
            b.collidable == collidable,
            b.dynamic == dynamic,
            b.collider == old(world).colliders@.len(),
            final(world).colliders@ == old(world).colliders@.push(b.spec_collider_rect()),
    {
        let b = PhysicsBody {
            position,
            rotation,
            velocity: Vec2i::zero(),
            size,
            collider: world.colliders.len(),
            collidable,
            dynamic,
        };
        world.colliders.push(b.get_collider_rect());
        b
    }

    /// The body's current collision rectangle, in world coordinates.
    pub fn get_collider_rect(&self) -> (r: Rect)
        ensures
            r == self.spec_collider_rect(),
    {
        Rect { x: self.position.x, y: self.position.y, w: self.size.x, h: self.size.y }
    }

    /// Advance the body by exactly one integration step.
    pub fn update(&mut self)
        requires
            old(self).can_step(),
        ensures
            *final(self) == old(self).stepped(),
    {
        self.position.x = self.position.x + self.velocity.x;
        self.position.y = self.position.y + self.velocity.y;
    }

    /// The debug outline of the body's collision rectangle.
    pub fn debug_draw_command(&self) -> (c: DrawCommand)
        ensures
            c@ == (crate::sprite::DrawCommandModel::DebugColliderOutline {
                rect: self.spec_collider_rect(),
            }),
    {
        DrawCommand::DebugColliderOutline { rect: self.get_collider_rect() }
    }
}

/// Two consecutive integration steps advance the position by exactly twice
/// the velocity — each step counts as one full frame of physics advancement —
/// and leave the velocity unchanged.
pub proof fn lemma_two_steps(b: PhysicsBody)
    requires
        b.can_step(),
        b.stepped().can_step(),
    ensures
        b.stepped().stepped().position.x == b.position.x + 2 * b.velocity.x,
        b.stepped().stepped().position.y == b.position.y + 2 * b.velocity.y,
        b.stepped().stepped().velocity == b.velocity,
{
}

} // verus!
