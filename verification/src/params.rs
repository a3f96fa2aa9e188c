//! Declarative item definitions: the behavioral variant (weapon vs.
//! equippable item), sprite configuration, collision footprint and
//! network-readiness flag, together with their mathematical models.

use vstd::prelude::*;

use crate::math::Vec2u;

verus! {

/// Variant-specific parameters of a weapon item.
#[derive(Clone, Copy, Debug, PartialEq, Eq, Structural)]
pub struct WeaponParams {
    /// Damage dealt per hit, in health units.
    pub damage: u32,
    /// Frames between two uses.
    pub cooldown: u32,
}

/// Variant-specific parameters of an equippable item.
#[derive(Clone, Copy, Debug, PartialEq, Eq, Structural)]
pub struct EquippedItemParams {
    /// Frames the item stays equipped.
    pub duration: u32,
}

/// The behavioral variant of an item: exactly one of these is present in a
/// definition, selected by the serialized record's discriminant tag.
#[derive(Clone, Copy, Debug, PartialEq, Eq, Structural)]
pub enum ItemKind {
    Weapon { params: WeaponParams },
    EquippedItem { params: EquippedItemParams },
}

impl ItemKind {
    /// Whether this is the weapon variant.
    pub fn is_weapon(&self) -> (r: bool)
        ensures
            r == (self is Weapon),
    {
        if let ItemKind::Weapon { .. } = self {
            return true;
        }
        false
    }
}

/// Configuration of an item's visual representation.
#[derive(Clone, Debug, PartialEq, Eq)]
pub struct SpriteParams {
    /// Identity of the texture to draw.
    pub texture_id: String,
    /// Width of one animation frame, in pixels.
    pub frame_width: u32,
    /// Height of one animation frame, in pixels.
    pub frame_height: u32,
}

/// Mathematical model of `SpriteParams`.
pub ghost struct SpriteParamsModel {
    pub texture_id: Seq<char>,
    pub frame_width: u32,
    pub frame_height: u32,
}

impl View for SpriteParams {
    type V = SpriteParamsModel;

    open spec fn view(&self) -> SpriteParamsModel {
        SpriteParamsModel {
            texture_id: self.texture_id@,
            frame_width: self.frame_width,
            frame_height: self.frame_height,
        }
    }
}

/// A declarative item definition, decoded once from a serialized record.
#[derive(Clone, Debug, PartialEq, Eq)]
pub struct ItemParams {
    /// Identity, unique within a level's item catalog; never empty.
    pub id: String,
    /// The behavioral variant.
    pub kind: ItemKind,
    /// Configuration of the visual representation.
    pub sprite: SpriteParams,
    /// Collision footprint (width, height), in world units.
    pub collider_size: Vec2u,
    /// Whether entities of this definition participate in network
    /// replication; false when absent from the record.
    pub is_network_ready: bool,
}

/// Mathematical model of `ItemParams`.
pub ghost struct ItemParamsModel {
    pub id: Seq<char>,
    pub kind: ItemKind,
    pub sprite: SpriteParamsModel,
    pub collider_size: Vec2u,
    pub is_network_ready: bool,
}

impl View for ItemParams {
    type V = ItemParamsModel;

    open spec fn view(&self) -> ItemParamsModel {
        ItemParamsModel {
            id: self.id@,
            kind: self.kind,
            sprite: self.sprite@,
            collider_size: self.collider_size,
            is_network_ready: self.is_network_ready,
        }
    }
}

impl ItemParamsModel {
    /// The definition invariant: the identity is non-empty. The collision
    /// footprint is non-negative by construction (unsigned components), and
    /// exactly one behavioral variant is present by the shape of `ItemKind`.
    pub open spec fn wf(self) -> bool {
        self.id.len() > 0
    }
}

} // verus!
