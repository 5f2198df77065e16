//! Scene composition: what exists from startup on, and what each frame adds.
//!
//! The mode is chosen once, when the composition is made. In the automatic
//! mode a water plugin of the host engine spawns the water and the
//! composition never does. In the manual modes the composition watches one
//! trigger and spawns water once for every press: on the frame on which the
//! trigger is down after a frame on which it was up. Every such spawn adds a
//! new water root; none replaces an earlier one.

use crate::assets::Assets;
use crate::assets::Handle;
use crate::entity::Camera;
use crate::entity::DirectionalLight;
use crate::entity::Entity;
use crate::entity::EntityView;
use crate::entity::Position;
use crate::entity::Scene;
use crate::entity::Solid;
use crate::entity::camera_count;
use crate::entity::lemma_counts_push;
use crate::entity::light_count;
use crate::entity::solid_count;
use crate::entity::water_root_count;
use crate::entity::water_tile_count;
use crate::material::Color;
use crate::material::Mesh;
use crate::material::Rgba8;
use crate::material::Scalar;
use crate::material::StandardMaterial;
use crate::material::WaterMaterial;
use crate::material::WaterSettings;
use crate::water::lemma_tiles_share_mesh_not_material;
use crate::water::setup_water;
use crate::water::water_spawned;
use crate::water::water_tiles;
use vstd::prelude::*;

verus! {

/// How water comes into the scene, and whether the camera is antialiased.
#[derive(Clone, Copy, Debug, PartialEq, Eq, Structural)]
pub enum Mode {
    /// The host's water plugin spawns the water by itself. Temporal
    /// antialiasing is on.
    WaterPlugin,
    /// A press of the trigger spawns water. Temporal antialiasing is off.
    ManualSpawnNoTAA,
    /// A press of the trigger spawns water. Temporal antialiasing is on.
    ManualSpawnTAA,
}

impl Mode {
    /// Whether water is spawned by the trigger and not by the host's plugin.
    pub open spec fn spawns_manually(self) -> bool {
        self != Mode::WaterPlugin
    }

    /// Whether temporal antialiasing is attached to the camera.
    pub open spec fn antialiased(self) -> bool {
        self != Mode::ManualSpawnNoTAA
    }

    /// Whether water is spawned by the trigger and not by the host's plugin.
    pub fn manual_spawn(self) -> (manual: bool)
        ensures
            manual == self.spawns_manually(),
    {
        match self {
            Mode::WaterPlugin => false,
            Mode::ManualSpawnNoTAA => true,
            Mode::ManualSpawnTAA => true,
        }
    }

    /// Whether temporal antialiasing is attached to the camera.
    pub fn temporal_antialiasing(self) -> (attached: bool)
        ensures
            attached == self.antialiased(),
    {
        match self {
            Mode::WaterPlugin => true,
            Mode::ManualSpawnNoTAA => false,
            Mode::ManualSpawnTAA => true,
        }
    }
}

/// Bits of the real values one, eight tenths, seven tenths and six tenths.
pub const ONE_BITS: u32 = 0x3F80_0000;

pub const EIGHT_TENTHS_BITS: u32 = 0x3F4C_CCCD;

pub const SEVEN_TENTHS_BITS: u32 = 0x3F33_3333;

pub const SIX_TENTHS_BITS: u32 = 0x3F19_999A;

/// The camera of the scene: ten units behind and level with the point that
/// it faces, steered by the fly-camera controller, with the sky rendered for
/// it, and antialiased as the mode says.
pub open spec fn startup_camera(mode: Mode) -> Camera {
    Camera {
        position: Position { x: 0, y: 20, z: 10 },
        look_at: Position { x: 0, y: 20, z: 0 },
        up: Position { x: 0, y: 1, z: 0 },
        fly_camera: true,
        atmosphere_camera: true,
        temporal_antialiasing: mode.antialiased(),
    }
}

/// The mesh of the cube: edges of one unit.
pub open spec fn cube_mesh() -> Mesh {
    Mesh::Cuboid { length: 1 }
}

/// The material of the cube: an opaque sandy colour.
pub open spec fn cube_material() -> StandardMaterial {
    StandardMaterial {
        base_color: Color {
            red: Scalar { bits: EIGHT_TENTHS_BITS },
            green: Scalar { bits: SEVEN_TENTHS_BITS },
            blue: Scalar { bits: SIX_TENTHS_BITS },
            alpha: Scalar { bits: ONE_BITS },
        },
    }
}

/// The cube, at the point that the camera faces, with its mesh and material
/// at the given positions of their registries.
pub open spec fn startup_cube(mesh: nat, material: nat) -> Solid {
    Solid {
        mesh: Handle { index: mesh as usize },
        material: Handle { index: material as usize },
        position: Position { x: 0, y: 20, z: 0 },
    }
}

/// The sun: a pale yellow light that casts shadows.
pub open spec fn sun() -> DirectionalLight {
    DirectionalLight {
        color: Rgba8 { red: 250, green: 255, blue: 230, alpha: 0 },
        shadows_enabled: true,
    }
}

/// What startup does to the scene and to the two registries: the cube's mesh
/// and material are the one new mesh and the one new material, and camera,
/// cube and sun, in this order, are the three new entities.
pub open spec fn started(
    mode: Mode,
    entities_before: Seq<EntityView>,
    entities_after: Seq<EntityView>,
    meshes_before: Seq<Mesh>,
    meshes_after: Seq<Mesh>,
    materials_before: Seq<StandardMaterial>,
    materials_after: Seq<StandardMaterial>,
) -> bool {
    &&& meshes_after == meshes_before.push(cube_mesh())
    &&& materials_after == materials_before.push(cube_material())
    &&& entities_after == entities_before.push(EntityView::Camera(startup_camera(mode))).push(
        EntityView::Solid(startup_cube(meshes_before.len(), materials_before.len())),
    ).push(EntityView::Light(sun()))
    &&& meshes_before.len() < usize::MAX
    &&& materials_before.len() < usize::MAX
}

/// Builds the part of the scene that is the same in every mode: the camera,
/// the cube and the sun. Only the camera's antialiasing depends on the mode.
pub fn startup(
    mode: Mode,
    scene: &mut Scene,
    meshes: &mut Assets<Mesh>,
    materials: &mut Assets<StandardMaterial>,
)
    ensures
        started(
            mode,
            old(scene)@,
            final(scene)@,
            old(meshes)@,
            final(meshes)@,
            old(materials)@,
            final(materials)@,
        ),
{
    scene.spawn(
        Entity::Camera(
            Camera {
                position: Position { x: 0, y: 20, z: 10 },
                look_at: Position { x: 0, y: 20, z: 0 },
                up: Position { x: 0, y: 1, z: 0 },
                fly_camera: true,
                atmosphere_camera: true,
                temporal_antialiasing: mode.temporal_antialiasing(),
            },
        ),
    );
    let mesh = meshes.register(Mesh::Cuboid { length: 1 });
    let material = materials.register(
        StandardMaterial {
            base_color: Color {
                red: Scalar { bits: EIGHT_TENTHS_BITS },
                green: Scalar { bits: SEVEN_TENTHS_BITS },
                blue: Scalar { bits: SIX_TENTHS_BITS },
                alpha: Scalar { bits: ONE_BITS },
            },
        },
    );
    scene.spawn(Entity::Solid(Solid { mesh, material, position: Position { x: 0, y: 20, z: 0 } }));
    scene.spawn(
        Entity::Light(
            DirectionalLight {
                color: Rgba8 { red: 250, green: 255, blue: 230, alpha: 0 },
                shadows_enabled: true,
            },
        ),
    );
    proof {
        meshes.lemma_len_fits();
        materials.lemma_len_fits();
    }
}

/// The trigger that spawns water, as it was on the last frame.
#[derive(Clone, Copy, Debug, PartialEq, Eq, Structural)]
pub struct Trigger {
    pub down: bool,
}

impl Trigger {
    /// A trigger that has not been pressed yet.
    pub fn new() -> (trigger: Self)
        ensures
            !trigger.down,
    {
        Trigger { down: false }
    }

    /// Takes in this frame's state of the trigger and says whether it was
    /// just pressed: down now, up on the frame before.
    pub fn update(&mut self, down: bool) -> (just_pressed: bool)
        ensures
            just_pressed == (down && !old(self).down),
            final(self).down == down,
    {
        let just_pressed = down && !self.down;
        self.down = down;
        just_pressed
    }
}

/// The per-frame step of the manual modes: takes in this frame's state of
/// the trigger and, if it was just pressed, spawns water as `settings`
/// describe it. Says whether it spawned.
pub fn spawn_water(
    scene: &mut Scene,
    keys: &mut Trigger,
    trigger_down: bool,
    settings: &WaterSettings,
    meshes: &mut Assets<Mesh>,
    materials: &mut Assets<WaterMaterial>,
) -> (spawned: bool)
    ensures
        spawned == (trigger_down && !old(keys).down),
        final(keys).down == trigger_down,
        spawned ==> water_spawned(
            *settings,
            old(scene)@,
            final(scene)@,
            old(meshes)@,
            final(meshes)@,
            old(materials)@,
            final(materials)@,
        ),
        !spawned ==> final(scene)@ == old(scene)@,
        !spawned ==> final(meshes)@ == old(meshes)@,
        !spawned ==> final(materials)@ == old(materials)@,
{
    if keys.update(trigger_down) {
        setup_water(scene, settings, meshes, materials);
        true
    } else {
        false
    }
}

/// Whether the handles of `entity` refer to assets of registries of the
/// given sizes: a solid's to a mesh and a standard material, each water
/// tile's to a mesh and a water material.
pub open spec fn handles_resolve(
    entity: EntityView,
    meshes: nat,
    materials: nat,
    water_materials: nat,
) -> bool {
    match entity {
        EntityView::Solid(solid) => solid.mesh.index < meshes && solid.material.index < materials,
        EntityView::Water(tiles) => forall|k: int|
            0 <= k < tiles.len() ==> (#[trigger] tiles[k]).mesh.index < meshes
                && tiles[k].material.index < water_materials,
        _ => true,
    }
}

/// The whole state of the demo: the mode, the trigger as last seen, the
/// scene, and the registries that the scene's handles refer to.
#[derive(Debug)]
pub struct Composition {
    pub mode: Mode,
    pub trigger: Trigger,
    pub scene: Scene,
    pub meshes: Assets<Mesh>,
    pub materials: Assets<StandardMaterial>,
    pub water_materials: Assets<WaterMaterial>,
}

impl Composition {
    /// What holds of a composition from its making on, frame after frame:
    /// the scene has exactly one camera, one cube and one sun, in the
    /// automatic mode it has no water of the composition's making, and
    /// every handle in the scene refers to an asset of its registry.
    pub open spec fn well_formed(&self) -> bool {
        &&& camera_count(self.scene@) == 1
        &&& solid_count(self.scene@) == 1
        &&& light_count(self.scene@) == 1
        &&& !self.mode.spawns_manually() ==> water_root_count(self.scene@) == 0
        &&& forall|i: int|
            0 <= i < self.scene@.len() ==> handles_resolve(
                #[trigger] self.scene@[i],
                self.meshes@.len(),
                self.materials@.len(),
                self.water_materials@.len(),
            )
    }

    /// A composition in `mode`, started: its scene holds the camera, the
    /// cube and the sun and nothing else, and the trigger counts as up.
    pub fn new(mode: Mode) -> (composition: Self)
        ensures
            composition.mode == mode,
            !composition.trigger.down,
            started(
                mode,
                Seq::empty(),
                composition.scene@,
                Seq::empty(),
                composition.meshes@,
                Seq::empty(),
                composition.materials@,
            ),
            composition.water_materials@ == Seq::<WaterMaterial>::empty(),
            composition.well_formed(),
    {
        let mut scene = Scene::new();
        let mut meshes: Assets<Mesh> = Assets::new();
        let mut materials: Assets<StandardMaterial> = Assets::new();
        startup(mode, &mut scene, &mut meshes, &mut materials);
        proof {
            lemma_startup_counts(
                mode,
                Seq::empty(),
                scene@,
                Seq::empty(),
                meshes@,
                Seq::empty(),
                materials@,
            );
        }
        Composition {
            mode,
            trigger: Trigger::new(),
            scene,
            meshes,
            materials,
            water_materials: Assets::new(),
        }
    }

    /// One frame. Takes in this frame's state of the trigger. In a manual
    /// mode, spawns water as `settings` describe it if the trigger was just
    /// pressed; in the automatic mode, never spawns. Says whether it spawned.
    pub fn on_frame(&mut self, trigger_down: bool, settings: &WaterSettings) -> (spawned: bool)
        ensures
            spawned == (old(self).mode.spawns_manually() && trigger_down && !old(self).trigger.down),
            final(self).mode == old(self).mode,
            final(self).trigger.down == trigger_down,
            final(self).materials@ == old(self).materials@,
            spawned ==> water_spawned(
                *settings,
                old(self).scene@,
                final(self).scene@,
                old(self).meshes@,
                final(self).meshes@,
                old(self).water_materials@,
                final(self).water_materials@,
            ),
            !spawned ==> final(self).scene@ == old(self).scene@,
            !spawned ==> final(self).meshes@ == old(self).meshes@,
            !spawned ==> final(self).water_materials@ == old(self).water_materials@,
            old(self).well_formed() ==> final(self).well_formed(),
    {
        if self.mode.manual_spawn() {
            let spawned = spawn_water(
                &mut self.scene,
                &mut self.trigger,
                trigger_down,
                settings,
                &mut self.meshes,
                &mut self.water_materials,
            );
            proof {
                if spawned && old(self).well_formed() {
                    lemma_spawn_keeps_well_formed(
                        *settings,
                        old(self).scene@,
                        self.scene@,
                        old(self).meshes@,
                        self.meshes@,
                        old(self).materials@.len(),
                        old(self).water_materials@,
                        self.water_materials@,
                    );
                }
            }
            spawned
        } else {
            self.trigger.update(trigger_down);
            false
        }
    }
}

/// Startup adds exactly one camera, one cube and one sun, whatever the mode,
/// and no water; the cube's handles refer to the two assets that startup
/// registered.
pub proof fn lemma_startup_counts(
    mode: Mode,
    entities_before: Seq<EntityView>,
    entities_after: Seq<EntityView>,
    meshes_before: Seq<Mesh>,
    meshes_after: Seq<Mesh>,
    materials_before: Seq<StandardMaterial>,
    materials_after: Seq<StandardMaterial>,
)
    requires
        started(
            mode,
            entities_before,
            entities_after,
            meshes_before,
            meshes_after,
            materials_before,
            materials_after,
        ),
    ensures
        entities_after.len() == entities_before.len() + 3,
        entities_before.is_prefix_of(entities_after),
        camera_count(entities_after) == camera_count(entities_before) + 1,
        solid_count(entities_after) == solid_count(entities_before) + 1,
        light_count(entities_after) == light_count(entities_before) + 1,
        water_root_count(entities_after) == water_root_count(entities_before),
        water_tile_count(entities_after) == water_tile_count(entities_before),
        entities_after[entities_before.len() as int] == EntityView::Camera(startup_camera(mode)),
        entities_after[entities_before.len() as int + 1] == EntityView::Solid(
            startup_cube(meshes_before.len(), materials_before.len()),
        ),
        startup_cube(meshes_before.len(), materials_before.len()).mesh.index
            == meshes_before.len(),
        startup_cube(meshes_before.len(), materials_before.len()).material.index
            == materials_before.len(),
        meshes_after[meshes_before.len() as int] == cube_mesh(),
        materials_after[materials_before.len() as int] == cube_material(),
        entities_after[entities_before.len() as int + 2] == EntityView::Light(sun()),
{
    let camera = EntityView::Camera(startup_camera(mode));
    let cube = EntityView::Solid(startup_cube(meshes_before.len(), materials_before.len()));
    let light = EntityView::Light(sun());
    lemma_counts_push(entities_before, camera);
    lemma_counts_push(entities_before.push(camera), cube);
    lemma_counts_push(entities_before.push(camera).push(cube), light);
}

/// A spawn keeps what holds of a composition: it adds no camera, cube or
/// sun, the handles of the new tiles refer to the new assets, and the
/// handles of earlier entities refer to what they referred to before.
pub proof fn lemma_spawn_keeps_well_formed(
    settings: WaterSettings,
    entities_before: Seq<EntityView>,
    entities_after: Seq<EntityView>,
    meshes_before: Seq<Mesh>,
    meshes_after: Seq<Mesh>,
    materials: nat,
    water_materials_before: Seq<WaterMaterial>,
    water_materials_after: Seq<WaterMaterial>,
)
    requires
        water_spawned(
            settings,
            entities_before,
            entities_after,
            meshes_before,
            meshes_after,
            water_materials_before,
            water_materials_after,
        ),
        forall|i: int|
            0 <= i < entities_before.len() ==> handles_resolve(
                #[trigger] entities_before[i],
                meshes_before.len(),
                materials,
                water_materials_before.len(),
            ),
    ensures
        camera_count(entities_after) == camera_count(entities_before),
        solid_count(entities_after) == solid_count(entities_before),
        light_count(entities_after) == light_count(entities_before),
        forall|i: int|
            0 <= i < entities_after.len() ==> handles_resolve(
                #[trigger] entities_after[i],
                meshes_after.len(),
                materials,
                water_materials_after.len(),
            ),
{
    match settings.spawn_tiles {
        None => {},
        Some(grid) => {
            let tiles = water_tiles(
                settings,
                grid,
                meshes_before.len(),
                water_materials_before.len(),
            );
            lemma_counts_push(entities_before, EntityView::Water(tiles));
            assert forall|i: int| 0 <= i < entities_after.len() implies handles_resolve(
                #[trigger] entities_after[i],
                meshes_after.len(),
                materials,
                water_materials_after.len(),
            ) by {
                if i < entities_before.len() {
                    assert(entities_after[i] == entities_before[i]);
                    assert(handles_resolve(
                        entities_before[i],
                        meshes_before.len(),
                        materials,
                        water_materials_before.len(),
                    ));
                } else {
                    assert(entities_after[i] == EntityView::Water(tiles));
                    assert forall|k: int| 0 <= k < tiles.len() implies (#[trigger] tiles[k]).mesh.index
                        < meshes_after.len() && tiles[k].material.index
                        < water_materials_after.len() by {
                        lemma_tiles_share_mesh_not_material(
                            settings,
                            grid,
                            meshes_before.len(),
                            water_materials_before.len(),
                            k,
                            k,
                        );
                    }
                }
            }
        },
    }
}

} // verus!
