//! The visual side of an entity: the sprite state built from a definition's
//! sprite configuration, and the draw commands an entity hands the renderer.
//! Drawing itself is the renderer's business; this layer only decides what is
//! drawn, where, and how.

use vstd::prelude::*;

use crate::math::{Rect, Vec2i};
use crate::params::{SpriteParams, SpriteParamsModel};

verus! {

/// One command for the renderer.
#[derive(Clone, Debug)]
pub enum DrawCommand {
    /// Draw a sprite at a position, with a rotation and per-axis flips.
    Sprite {
        texture_id: String,
        position: Vec2i,
        rotation: i32,
        flip_x: bool,
        flip_y: bool,
    },
    /// Draw a diagnostics marker at a position.
    DebugMarker { position: Vec2i },
    /// Draw a diagnostics outline of a body's collision rectangle.
    DebugColliderOutline { rect: Rect },
}

/// Mathematical model of a `DrawCommand`.
pub ghost enum DrawCommandModel {
    Sprite {
        texture_id: Seq<char>,
        position: Vec2i,
        rotation: i32,
        flip_x: bool,
        flip_y: bool,
    },
    DebugMarker { position: Vec2i },
    DebugColliderOutline { rect: Rect },
}

impl View for DrawCommand {
    type V = DrawCommandModel;

    open spec fn view(&self) -> DrawCommandModel {
        match self {
            DrawCommand::Sprite { texture_id, position, rotation, flip_x, flip_y } => (
            DrawCommandModel::Sprite {
                texture_id: texture_id@,
                position: *position,
                rotation: *rotation,
                flip_x: *flip_x,
                flip_y: *flip_y,
            }),
            DrawCommand::DebugMarker { position } => (DrawCommandModel::DebugMarker {
                position: *position,
            }),
            DrawCommand::DebugColliderOutline { rect } => (DrawCommandModel::DebugColliderOutline {
                rect: *rect,
            }),
        }
    }
}

/// The visual representation of an entity: built once from the definition's
/// sprite configuration, read during draw, never mutated afterwards.
#[derive(Clone, Debug)]
pub struct Sprite {
    pub params: SpriteParams,
}

impl View for Sprite {
    type V = SpriteParamsModel;

    open spec fn view(&self) -> SpriteParamsModel {
        self.params@
    }
}

impl Sprite {
    /// Build the visual representation from a sprite configuration.
    pub fn new(params: SpriteParams) -> (s: Sprite)
        ensures
            s@ == params@,
    {
        Sprite { params }
    }

    /// The command that draws this sprite at a position, with a rotation and
    /// per-axis flips.
    pub fn draw_command(&self, position: Vec2i, rotation: i32, flip_x: bool, flip_y: bool) -> (c:
        DrawCommand)
        ensures
            c@ == (DrawCommandModel::Sprite {
                texture_id: self@.texture_id,
                position,
                rotation,
                flip_x,
                flip_y,
            }),
    {
        DrawCommand::Sprite {
            texture_id: self.params.texture_id.clone(),
            position,
            rotation,
            flip_x,
            flip_y,
        }
    }

    /// The diagnostics marker command at a position.
    pub fn debug_draw_command(&self, position: Vec2i) -> (c: DrawCommand)
        ensures
            c@ == (DrawCommandModel::DebugMarker { position }),
    {
        DrawCommand::DebugMarker { position }
    }
}

} // verus!
