//! The live item entity: constructed from a spawn position and a decoded
//! definition, owning a physical body and a visual representation.

use vstd::prelude::*;

use crate::body::{CollisionWorld, PhysicsBody};
use crate::math::{Rect, Vec2i};
use crate::params::{ItemKind, ItemParams};
use crate::sprite::{DrawCommand, DrawCommandModel, Sprite};

verus! {

/// A live item entity. It is owned by the scene registry; the physics and
/// network subsystems reach it only through its opaque handle.
pub struct Item {
    /// Identity copied from the definition; stable for the entity's lifetime.
    pub id: String,
    /// The behavioral variant, copied from the definition.
    pub kind: ItemKind,
    /// The exclusively owned physical body.
    pub body: PhysicsBody,
    /// The exclusively owned visual representation.
    pub sprite: Sprite,
}

impl Item {
    /// Construct a live entity from a spawn position and a definition:
    /// allocate a dynamic, collidable body with the definition's collision
    /// footprint at the position with zero rotation, and build the visual
    /// representation from the sprite configuration. Construction never
    /// fails.
    pub fn new(world: &mut CollisionWorld, position: Vec2i, params: ItemParams) -> (item: Item)
        ensures
            item.id == params.id,
            item.kind == params.kind,
            item.sprite@ == params.sprite@,
            item.body.position == position,
            item.body.rotation == 0,
            item.body.velocity == (Vec2i { x: 0, y: 0 }),
            item.body.size == params.collider_size,
            item.body.collidable,
            item.body.dynamic,
            item.body.spec_collider_rect() == (Rect {
                x: position.x,
                y: position.y,
                w: params.collider_size.x,
                h: params.collider_size.y,
            }),
            item.body.collider == old(world).colliders@.len(),
            final(world).colliders@ == old(world).colliders@.push(item.body.spec_collider_rect()),
    {
        let body = PhysicsBody::new(world, position, 0, params.collider_size, true, true);
        let sprite = Sprite::new(params.sprite);
        Item { id: params.id, kind: params.kind, body, sprite }
    }

    /// Advance the entity's body by exactly one integration step; nothing
    /// else changes. This is what the network capability's per-frame
    /// synchronization hook performs.
    pub fn network_update(&mut self)
        requires
            old(self).body.can_step(),
        ensures
            final(self).body == old(self).body.stepped(),
            final(self).id == old(self).id,
            final(self).kind == old(self).kind,
            final(self).sprite == old(self).sprite,
    {
        self.body.update();
    }

    /// The commands that draw this entity: exactly one sprite draw at the
    /// body's position and rotation, unflipped on both axes; in a diagnostics
    /// build, additionally one debug marker at the position and one debug
    /// outline of the body's collision rectangle, in that order.
    pub fn draw(&self, diagnostics: bool) -> (cmds: Vec<DrawCommand>)
        ensures
            cmds@.len() == if diagnostics {
                3int
            } else {
                1int
            },
            cmds@[0]@ == (DrawCommandModel::Sprite {
                texture_id: self.sprite@.texture_id,
                position: self.body.position,
                rotation: self.body.rotation,
                flip_x: false,
                flip_y: false,
            }),
            diagnostics ==> cmds@[1]@ == (DrawCommandModel::DebugMarker {
                position: self.body.position,
            }),
            diagnostics ==> cmds@[2]@ == (DrawCommandModel::DebugColliderOutline {
                rect: self.body.spec_collider_rect(),
            }),
    {
        let mut cmds: Vec<DrawCommand> = Vec::new();
        cmds.push(self.sprite.draw_command(self.body.position, self.body.rotation, false, false));
        if diagnostics {
            cmds.push(self.sprite.debug_draw_command(self.body.position));
            cmds.push(self.body.debug_draw_command());
        }
        cmds
    }
}

} // verus!
