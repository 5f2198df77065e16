//! Scene assembly for a small water demo: where the tiles of a water grid go,
//! which assets and entities one spawn of water registers, and what the
//! composition creates at startup and on each frame.
//!
//! The library only describes the scene. A host engine turns the descriptions
//! into its own meshes, materials and entities.

pub mod assets;
pub mod composition;
pub mod entity;
pub mod layout;
pub mod material;
pub mod water;
