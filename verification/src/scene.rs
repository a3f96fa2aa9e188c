//! The scene registry and the capability dispatch: entities are owned by the
//! registry and reached through opaque handles; the physics and network
//! subsystems drive an entity through the capability functions registered for
//! its handle, resolving the handle afresh on every call and never caching a
//! reference across calls.

use vstd::prelude::*;

use crate::body::PhysicsBody;
use crate::items::Item;
use crate::math::{Rect, Vec2i};

verus! {

/// An opaque handle to a registered entity. It carries no ownership; the
/// registry resolves it to the live entity on each call.
#[derive(Clone, Copy, Debug, PartialEq, Eq, Structural)]
pub struct Handle {
    pub index: usize,
}

/// One registry slot: the owned entity together with its capability
/// registrations.
pub struct SceneSlot {
    /// The owned entity.
    pub item: Item,
    /// Whether the physics capability table is registered for this handle.
    pub physics_registered: bool,
    /// Whether the network capability table is registered for this handle.
    pub network_registered: bool,
}

/// The scene registry: exclusive owner of all item entities. A removed
/// handle's slot stays empty forever; handles are never reused.
pub struct SceneRegistry {
    pub slots: Vec<Option<SceneSlot>>,
}

impl SceneRegistry {
    /// Whether the handle refers to a live entity.
    pub open spec fn is_live(self, h: Handle) -> bool {
        h.index < self.slots@.len() && self.slots@[h.index as int] is Some
    }

    /// The slot of a live handle.
    pub open spec fn slot_of(self, h: Handle) -> SceneSlot
        recommends
            self.is_live(h),
    {
        self.slots@[h.index as int]->0
    }

    /// The entity of a live handle.
    pub open spec fn item_of(self, h: Handle) -> Item
        recommends
            self.is_live(h),
    {
        self.slot_of(h).item
    }

    /// An empty registry.
    pub fn new() -> (r: SceneRegistry)
        ensures
            r.slots@ == Seq::<Option<SceneSlot>>::empty(),
    {
        SceneRegistry { slots: Vec::new() }
    }

    /// Take ownership of an entity and assign it a fresh opaque handle. The
    /// entity starts in the constructed-but-not-ready state: live, with no
    /// capability registered yet.
    pub fn register_entity(&mut self, item: Item) -> (h: Handle)
        ensures
            final(self).slots@ == old(self).slots@.push(
                Some(SceneSlot { item, physics_registered: false, network_registered: false }),
            ),
            h.index == old(self).slots@.len(),
            final(self).is_live(h),
            final(self).item_of(h) == item,
            !final(self).slot_of(h).physics_registered,
            !final(self).slot_of(h).network_registered,
    {
        let h = Handle { index: self.slots.len() };
        self.slots.push(
            Some(SceneSlot { item, physics_registered: false, network_registered: false }),
        );
        h
    }

    /// Whether the physics capability table is registered for a live handle.
    pub fn provides_physics(&self, h: Handle) -> (r: bool)
        requires
            self.is_live(h),
        ensures
            r == self.slot_of(h).physics_registered,
    {
        match &self.slots[h.index] {
            Some(slot) => slot.physics_registered,
            None => false,
        }
    }

    /// Whether the network capability table is registered for a live handle.
    pub fn provides_network(&self, h: Handle) -> (r: bool)
        requires
            self.is_live(h),
        ensures
            r == self.slot_of(h).network_registered,
    {
        match &self.slots[h.index] {
            Some(slot) => slot.network_registered,
            None => false,
        }
    }

    /// The activation step: register the entity's two capability tables —
    /// physics and network — against its own handle, exactly once, before any
    /// frame update is dispatched. This is the one transition from
    /// constructed-but-not-ready to ready; there is no way back.
    pub fn ready(&mut self, h: Handle)
        requires
            old(self).is_live(h),
            !old(self).slot_of(h).physics_registered,
            !old(self).slot_of(h).network_registered,
        ensures
            final(self).slots@ == old(self).slots@.update(
                h.index as int,
                Some(SceneSlot {
                    item: old(self).item_of(h),
                    physics_registered: true,
                    network_registered: true,
                }),
            ),
            final(self).is_live(h),
            final(self).item_of(h) == old(self).item_of(h),
            final(self).slot_of(h).physics_registered,
            final(self).slot_of(h).network_registered,
    {
        match &mut self.slots[h.index] {
            Some(slot) => {
                slot.network_registered = true;
                slot.physics_registered = true;
            },
            None => {},
        }
    }

    /// Resolve a live handle to its entity.
    pub fn get<'a>(&'a self, h: Handle) -> (item: &'a Item)
        requires
            self.is_live(h),
        ensures
            *item == self.item_of(h),
    {
        let slot = self.slots[h.index].as_ref().unwrap();
        &slot.item
    }

    /// Physics capability `active`: an item entity is always eligible for
    /// physics processing while alive, every frame until removal.
    pub fn active(&self, h: Handle) -> (r: bool)
        requires
            self.is_live(h),
        ensures
            r,
    {
        true
    }

    /// Physics capability `collider`: the entity's current collision
    /// rectangle, read from its physical body, in world coordinates.
    pub fn collider(&self, h: Handle) -> (r: Rect)
        requires
            self.is_live(h),
        ensures
            r == self.item_of(h).body.spec_collider_rect(),
    {
        self.get(h).body.get_collider_rect()
    }

    /// Physics capability `set_speed_x`: overwrite the horizontal component
    /// of the entity's velocity with exactly the given value — no smoothing
    /// or clamping at this layer. Nothing else changes.
    pub fn set_speed_x(&mut self, h: Handle, speed: i32)
        requires
            old(self).is_live(h),
        ensures
            final(self).slots@ == old(self).slots@.update(
                h.index as int,
                Some(SceneSlot {
                    item: Item {
                        body: PhysicsBody {
                            velocity: Vec2i { x: speed, y: old(self).item_of(h).body.velocity.y },
                            ..old(self).item_of(h).body
                        },
                        ..old(self).item_of(h)
                    },
                    ..old(self).slot_of(h)
                }),
            ),
            final(self).is_live(h),
            final(self).item_of(h).body.velocity.x == speed,
    {
        match &mut self.slots[h.index] {
            Some(slot) => {
                slot.item.body.velocity.x = speed;
            },
            None => {},
        }
    }

    /// Physics capability `set_speed_y`: overwrite the vertical component of
    /// the entity's velocity with exactly the given value — no smoothing or
    /// clamping at this layer. Nothing else changes.
    pub fn set_speed_y(&mut self, h: Handle, speed: i32)
        requires
            old(self).is_live(h),
        ensures
            final(self).slots@ == old(self).slots@.update(
                h.index as int,
                Some(SceneSlot {
                    item: Item {
                        body: PhysicsBody {
                            velocity: Vec2i { x: old(self).item_of(h).body.velocity.x, y: speed },
                            ..old(self).item_of(h).body
                        },
                        ..old(self).item_of(h)
                    },
                    ..old(self).slot_of(h)
                }),
            ),
            final(self).is_live(h),
            final(self).item_of(h).body.velocity.y == speed,
    {
        match &mut self.slots[h.index] {
            Some(slot) => {
                slot.item.body.velocity.y = speed;
            },
            None => {},
        }
    }

    /// Network capability `network_update`: resolve the entity and advance
    /// its body by exactly one integration step. Calling it twice advances
    /// two frames, not one.
    pub fn network_update(&mut self, h: Handle)
        requires
            old(self).is_live(h),
            old(self).item_of(h).body.can_step(),
        ensures
            final(self).slots@ == old(self).slots@.update(
                h.index as int,
                Some(SceneSlot {
                    item: Item {
                        body: old(self).item_of(h).body.stepped(),
                        ..old(self).item_of(h)
                    },
                    ..old(self).slot_of(h)
                }),
            ),
            final(self).is_live(h),
            final(self).item_of(h).body == old(self).item_of(h).body.stepped(),
    {
        match &mut self.slots[h.index] {
            Some(slot) => {
                slot.item.network_update();
            },
            None => {},
        }
    }

    /// Liveness persists through the frame operations: every operation that
    /// stores a live slot at some handle — the activation step, a speed
    /// write, a network update — keeps every live handle live. Only removal
    /// ends a handle's life.
    pub proof fn lemma_live_handles_stay_live(
        before: SceneRegistry,
        after: SceneRegistry,
        h: Handle,
        slot: SceneSlot,
        other: Handle,
    )
        requires
            after.slots@ == before.slots@.update(h.index as int, Some(slot)),
            before.is_live(h),
            before.is_live(other),
        ensures
            after.is_live(other),
    {
    }

    /// Remove an entity: its lifecycle ends unconditionally, its handle is
    /// dead, and no capability function is ever invoked for it again.
    pub fn remove(&mut self, h: Handle)
        requires
            old(self).is_live(h),
        ensures
            final(self).slots@ == old(self).slots@.update(h.index as int, None),
            !final(self).is_live(h),
    {
        self.slots[h.index] = None;
    }
}

} // verus!
