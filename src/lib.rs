//! A small 2D game engine core: a generational entity allocator, a component
//! table keyed by entity, and the plain value types that game code shares.

pub mod ecs;
pub mod graphics;
pub mod input;

mod vector2;

pub use crate::vector2::{Vector2, Vector2i, Vector2u};
