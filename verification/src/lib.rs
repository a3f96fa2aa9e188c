//! Runtime representation of placeable, interactive world objects ("items")
//! in a 2D action game: declarative item definitions decoded from a generic
//! record format, live item entities with a physical body and a visual
//! representation, and the capability-table dispatch that lets the physics
//! and network subsystems drive entities through opaque handles.

pub mod body;
pub mod codec;
pub mod items;
pub mod math;
pub mod params;
pub mod record;
pub mod scene;
pub mod sprite;
