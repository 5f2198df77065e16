//! The entities of the scene and the scene graph that holds them.
//!
//! A scene is the list of its top-level entities in the order in which they
//! were spawned. Nothing is ever removed from it. A water root owns its tiles:
//! they are its children and have no life apart from it.

use crate::assets::Handle;
use crate::layout::TileOffset;
use crate::material::Rgba8;
use crate::material::Scalar;
use vstd::prelude::*;

verus! {

/// A point or a direction in world units.
#[derive(Clone, Copy, Debug, PartialEq, Eq, Structural)]
pub struct Position {
    pub x: i32,
    pub y: i32,
    pub z: i32,
}

/// The camera through which the scene is seen.
#[derive(Clone, Copy, Debug, PartialEq, Eq, Structural)]
pub struct Camera {
    pub position: Position,
    /// The point that the camera faces.
    pub look_at: Position,
    /// The direction that is up in the camera's picture.
    pub up: Position,
    /// Whether the fly-camera controller steers this camera.
    pub fly_camera: bool,
    /// Whether the sky is rendered for this camera.
    pub atmosphere_camera: bool,
    /// Whether temporal antialiasing is attached to this camera.
    pub temporal_antialiasing: bool,
}

/// A solid with a mesh and a material of the standard kind.
#[derive(Clone, Copy, Debug, PartialEq, Eq, Structural)]
pub struct Solid {
    pub mesh: Handle,
    pub material: Handle,
    pub position: Position,
}

/// A light that shines from one direction on the whole scene.
#[derive(Clone, Copy, Debug, PartialEq, Eq, Structural)]
pub struct DirectionalLight {
    pub color: Rgba8,
    pub shadows_enabled: bool,
}

/// One tile of water: a child of a water root.
#[derive(Clone, Copy, Debug, PartialEq, Eq, Structural)]
pub struct WaterTile {
    /// The plane, shared with the other tiles of the same spawn.
    pub mesh: Handle,
    /// The tile's own water material.
    pub material: Handle,
    /// Height of the water surface.
    pub height: Scalar,
    pub offset: TileOffset,
    pub casts_shadows: bool,
}

/// The parent of all tiles of one spawn.
#[derive(Debug)]
pub struct WaterRoot {
    pub tiles: Vec<WaterTile>,
}

impl View for WaterRoot {
    type V = Seq<WaterTile>;

    open spec fn view(&self) -> Seq<WaterTile> {
        self.tiles@
    }
}

/// A top-level entity of the scene.
#[derive(Debug)]
pub enum Entity {
    Camera(Camera),
    Solid(Solid),
    Light(DirectionalLight),
    Water(WaterRoot),
}

/// What a top-level entity is, with the tiles of a water root as a sequence.
pub enum EntityView {
    Camera(Camera),
    Solid(Solid),
    Light(DirectionalLight),
    Water(Seq<WaterTile>),
}

impl View for Entity {
    type V = EntityView;

    open spec fn view(&self) -> EntityView {
        match self {
            Entity::Camera(camera) => EntityView::Camera(*camera),
            Entity::Solid(solid) => EntityView::Solid(*solid),
            Entity::Light(light) => EntityView::Light(*light),
            Entity::Water(root) => EntityView::Water(root@),
        }
    }
}

impl Entity {
    /// The name under which the host engine lists the entity: the light is
    /// the sun, a water root is the water, the others have no name.
    pub fn name(&self) -> (name: Option<&'static str>)
        ensures
            self@ is Light ==> (name matches Some(s) && s@ == "Sun"@),
            self@ is Water ==> (name matches Some(s) && s@ == "Water"@),
            self@ is Camera || self@ is Solid ==> name is None,
    {
        match self {
            Entity::Light(_) => Some("Sun"),
            Entity::Water(_) => Some("Water"),
            _ => None,
        }
    }
}

/// The scene graph: all top-level entities, oldest first.
#[derive(Debug)]
pub struct Scene {
    pub entities: Vec<Entity>,
}

impl View for Scene {
    type V = Seq<EntityView>;

    open spec fn view(&self) -> Seq<EntityView> {
        self.entities@.map_values(|entity: Entity| entity@)
    }
}

impl Scene {
    /// A scene without entities.
    pub fn new() -> (scene: Self)
        ensures
            scene@ == Seq::<EntityView>::empty(),
    {
        Scene { entities: Vec::new() }
    }

    /// Adds `entity` behind all earlier entities and returns its position in
    /// the scene.
    pub fn spawn(&mut self, entity: Entity) -> (id: usize)
        ensures
            final(self)@ == old(self)@.push(entity@),
            id == old(self)@.len(),
    {
        let id: usize = self.entities.len();
        self.entities.push(entity);
        id
    }
}

/// Number of cameras among `entities`.
pub open spec fn camera_count(entities: Seq<EntityView>) -> nat
    decreases entities.len(),
{
    if entities.len() == 0 {
        0
    } else {
        camera_count(entities.drop_last()) + if entities.last() is Camera {
            1nat
        } else {
            0nat
        }
    }
}

/// Number of solids among `entities`.
pub open spec fn solid_count(entities: Seq<EntityView>) -> nat
    decreases entities.len(),
{
    if entities.len() == 0 {
        0
    } else {
        solid_count(entities.drop_last()) + if entities.last() is Solid {
            1nat
        } else {
            0nat
        }
    }
}

/// Number of lights among `entities`.
pub open spec fn light_count(entities: Seq<EntityView>) -> nat
    decreases entities.len(),
{
    if entities.len() == 0 {
        0
    } else {
        light_count(entities.drop_last()) + if entities.last() is Light {
            1nat
        } else {
            0nat
        }
    }
}

/// Number of water roots among `entities`.
pub open spec fn water_root_count(entities: Seq<EntityView>) -> nat
    decreases entities.len(),
{
    if entities.len() == 0 {
        0
    } else {
        water_root_count(entities.drop_last()) + if entities.last() is Water {
            1nat
        } else {
            0nat
        }
    }
}

/// Number of water tiles under all water roots among `entities`.
pub open spec fn water_tile_count(entities: Seq<EntityView>) -> nat
    decreases entities.len(),
{
    if entities.len() == 0 {
        0
    } else {
        water_tile_count(entities.drop_last()) + match entities.last() {
            EntityView::Water(tiles) => tiles.len(),
            _ => 0nat,
        }
    }
}

/// What one more entity adds to each count: one to the count of its own
/// kind, its tiles to the count of tiles, nothing else.
pub proof fn lemma_counts_push(entities: Seq<EntityView>, entity: EntityView)
    ensures
        camera_count(entities.push(entity)) == camera_count(entities) + if entity is Camera {
            1nat
        } else {
            0nat
        },
        solid_count(entities.push(entity)) == solid_count(entities) + if entity is Solid {
            1nat
        } else {
            0nat
        },
        light_count(entities.push(entity)) == light_count(entities) + if entity is Light {
            1nat
        } else {
            0nat
        },
        water_root_count(entities.push(entity)) == water_root_count(entities) + if entity is Water {
            1nat
        } else {
            0nat
        },
        water_tile_count(entities.push(entity)) == water_tile_count(entities) + match entity {
            EntityView::Water(tiles) => tiles.len(),
            _ => 0nat,
        },
{
    assert(entities.push(entity).drop_last() =~= entities);
}

} // verus!
