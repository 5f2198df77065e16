//! The assets of the scene and the settings that water is spawned from.
//!
//! Real-valued settings are carried through unchanged and never computed
//! with, so each is held as the 32 bits of its IEEE 754 single-precision
//! encoding.

use crate::layout::GridSize;
use crate::layout::TileOffset;
use vstd::prelude::*;

verus! {

/// A real value, held as the bits of its single-precision encoding.
#[derive(Clone, Copy, Debug, PartialEq, Eq, Structural)]
pub struct Scalar {
    pub bits: u32,
}

/// A colour in sRGB with an alpha channel.
#[derive(Clone, Copy, Debug, PartialEq, Eq, Structural)]
pub struct Color {
    pub red: Scalar,
    pub green: Scalar,
    pub blue: Scalar,
    pub alpha: Scalar,
}

/// A colour in sRGB with an alpha channel, one byte per channel.
#[derive(Clone, Copy, Debug, PartialEq, Eq, Structural)]
pub struct Rgba8 {
    pub red: u8,
    pub green: u8,
    pub blue: u8,
    pub alpha: u8,
}

/// A mesh that the host engine tessellates.
#[derive(Clone, Copy, Debug, PartialEq, Eq, Structural)]
pub enum Mesh {
    /// A cube with edges of `length` units.
    Cuboid { length: u32 },
    /// A flat square with sides of `length` units, cut `subdivisions` times
    /// along each side.
    Plane { length: u32, subdivisions: u32 },
}

/// The material of an opaque solid.
#[derive(Clone, Copy, Debug, PartialEq, Eq, Structural)]
pub struct StandardMaterial {
    pub base_color: Color,
}

/// How water looks and where it is spawned. A spawn reads the settings and
/// never changes them.
#[derive(Clone, Copy, Debug)]
pub struct WaterSettings {
    /// The grid of tiles to spawn; `None` switches water off.
    pub spawn_tiles: Option<GridSize>,
    /// Side length of one tile, in world units.
    pub tile_size: u32,
    /// Height of the water surface.
    pub height: Scalar,
    pub base_color: Color,
    pub deep_color: Color,
    pub shallow_color: Color,
    pub edge_color: Color,
    /// Wave amplitude.
    pub amplitude: Scalar,
    pub clarity: Scalar,
    /// Scale of the blend at the water's edge.
    pub edge_scale: Scalar,
}

/// The material of one water tile. Every tile has a material of its own,
/// because the tile's offset is part of it.
#[derive(Clone, Copy, Debug, PartialEq, Eq, Structural)]
pub struct WaterMaterial {
    pub base_color: Color,
    pub perceptual_roughness: Scalar,
    pub amplitude: Scalar,
    pub clarity: Scalar,
    pub deep_color: Color,
    pub shallow_color: Color,
    pub edge_color: Color,
    pub edge_scale: Scalar,
    /// Where the tile's texture coordinates start.
    pub coord_offset: TileOffset,
    /// Scale of the texture coordinates along both axes.
    pub coord_scale: u32,
}

/// Bits of the roughness of every water surface, twenty-two hundredths.
pub const WATER_ROUGHNESS_BITS: u32 = 0x3E61_47AE;

/// How often the plane of a tile is cut per side: once per four units.
pub const UNITS_PER_SUBDIVISION: u32 = 4;

/// The roughness of every water surface.
pub open spec fn water_roughness() -> Scalar {
    Scalar { bits: WATER_ROUGHNESS_BITS }
}

/// The plane that all tiles of one spawn share.
pub open spec fn water_mesh(tile_size: u32) -> Mesh {
    Mesh::Plane { length: tile_size, subdivisions: tile_size / UNITS_PER_SUBDIVISION }
}

/// The material of the tile at `coord_offset`: the look that the settings
/// give, the fixed roughness, the tile's own offset and the tile size as scale.
pub open spec fn water_material(settings: WaterSettings, coord_offset: TileOffset) -> WaterMaterial {
    WaterMaterial {
        base_color: settings.base_color,
        perceptual_roughness: water_roughness(),
        amplitude: settings.amplitude,
        clarity: settings.clarity,
        deep_color: settings.deep_color,
        shallow_color: settings.shallow_color,
        edge_color: settings.edge_color,
        edge_scale: settings.edge_scale,
        coord_offset,
        coord_scale: settings.tile_size,
    }
}

impl Mesh {
    /// The plane that all tiles of size `tile_size` share.
    pub fn water_plane(tile_size: u32) -> (mesh: Mesh)
        ensures
            mesh == water_mesh(tile_size),
    {
        Mesh::Plane { length: tile_size, subdivisions: tile_size / UNITS_PER_SUBDIVISION }
    }
}

impl WaterMaterial {
    /// The material of the tile at `coord_offset`.
    pub fn for_tile(settings: &WaterSettings, coord_offset: TileOffset) -> (material: WaterMaterial)
        ensures
            material == water_material(*settings, coord_offset),
    {
        WaterMaterial {
            base_color: settings.base_color,
            perceptual_roughness: Scalar { bits: WATER_ROUGHNESS_BITS },
            amplitude: settings.amplitude,
            clarity: settings.clarity,
            deep_color: settings.deep_color,
            shallow_color: settings.shallow_color,
            edge_color: settings.edge_color,
            edge_scale: settings.edge_scale,
            coord_offset,
            coord_scale: settings.tile_size,
        }
    }
}

} // verus!
