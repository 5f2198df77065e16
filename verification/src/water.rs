//! Water asset assembly: one spawn of water.
//!
//! A spawn registers one plane for all its tiles and one material per tile,
//! and adds one water root with one tile per grid cell to the scene. With no
//! grid in the settings, water is switched off and a spawn does nothing.

use crate::assets::Assets;
use crate::assets::Handle;
use crate::entity::Entity;
use crate::entity::EntityView;
use crate::entity::Scene;
use crate::entity::WaterRoot;
use crate::entity::WaterTile;
use crate::entity::lemma_counts_push;
use crate::entity::water_root_count;
use crate::entity::water_tile_count;
use crate::layout::GridSize;
use crate::layout::cell_count;
use crate::layout::cell_offset;
use crate::layout::grid_layout_spec;
use crate::layout::lemma_cell_index;
use crate::layout::lemma_layout_distinct;
use crate::material::Mesh;
use crate::material::WaterMaterial;
use crate::material::WaterSettings;
use crate::material::water_material;
use crate::material::water_mesh;
use vstd::prelude::*;

verus! {

/// The materials that a spawn over `grid` registers, in the order of the
/// layout: the material of each cell carries the cell's offset.
pub open spec fn tile_materials(settings: WaterSettings, grid: GridSize) -> Seq<WaterMaterial> {
    grid_layout_spec(grid, settings.tile_size).map_values(
        |offset| water_material(settings, offset),
    )
}

/// The tiles that a spawn over `grid` creates, in the order of the layout.
/// All of them refer to the plane at `mesh`; the tile of cell `k` refers to
/// the material at `first_material + k`.
pub open spec fn water_tiles(
    settings: WaterSettings,
    grid: GridSize,
    mesh: nat,
    first_material: nat,
) -> Seq<WaterTile> {
    Seq::new(
        cell_count(grid),
        |k: int|
            WaterTile {
                mesh: Handle { index: mesh as usize },
                material: Handle { index: (first_material + k) as usize },
                height: settings.height,
                offset: grid_layout_spec(grid, settings.tile_size)[k],
                casts_shadows: false,
            },
    )
}

/// What one spawn does to the scene and to the two registries.
///
/// Without a grid nothing changes. With a grid, the plane is the one new
/// mesh, the tiles' materials are the new materials, and a water root with
/// the tiles is the one new entity; the new handles fit the machine's index
/// range, so each tile's handles are exactly the positions named above.
pub open spec fn water_spawned(
    settings: WaterSettings,
    entities_before: Seq<EntityView>,
    entities_after: Seq<EntityView>,
    meshes_before: Seq<Mesh>,
    meshes_after: Seq<Mesh>,
    materials_before: Seq<WaterMaterial>,
    materials_after: Seq<WaterMaterial>,
) -> bool {
    match settings.spawn_tiles {
        None => {
            &&& entities_after == entities_before
            &&& meshes_after == meshes_before
            &&& materials_after == materials_before
        },
        Some(grid) => {
            &&& meshes_after == meshes_before.push(water_mesh(settings.tile_size))
            &&& materials_after == materials_before + tile_materials(settings, grid)
            &&& entities_after == entities_before.push(
                EntityView::Water(
                    water_tiles(settings, grid, meshes_before.len(), materials_before.len()),
                ),
            )
            &&& meshes_before.len() < usize::MAX
            &&& materials_before.len() + cell_count(grid) <= usize::MAX
        },
    }
}

/// Spawns water as `settings` describe it: registers the shared plane in
/// `meshes` and one material per tile in `materials`, and adds the water root
/// with its tiles to `scene`. Does nothing if the settings name no grid.
pub fn setup_water(
    scene: &mut Scene,
    settings: &WaterSettings,
    meshes: &mut Assets<Mesh>,
    materials: &mut Assets<WaterMaterial>,
)
    ensures
        water_spawned(
            *settings,
            old(scene)@,
            final(scene)@,
            old(meshes)@,
            final(meshes)@,
            old(materials)@,
            final(materials)@,
        ),
{
    let grid = match settings.spawn_tiles {
        Some(grid) => grid,
        None => {
            return ;
        },
    };
    let ghost first_material = materials@.len();
    let ghost expected_materials = tile_materials(*settings, grid);
    let ghost expected_tiles = water_tiles(*settings, grid, meshes@.len(), first_material);
    let water_height = settings.height;
    let mesh = meshes.register(Mesh::water_plane(settings.tile_size));
    let mut tiles: Vec<WaterTile> = Vec::new();
    let mut col: u32 = 0;
    while col < grid.cols
        invariant
            col <= grid.cols,
            first_material == old(materials)@.len(),
            expected_materials == tile_materials(*settings, grid),
            expected_tiles == water_tiles(*settings, grid, mesh.index as nat, first_material),
            water_height == settings.height,
            tiles@.len() == col * grid.rows,
            tiles@.len() <= cell_count(grid),
            materials@.len() == first_material + tiles@.len(),
            materials@.subrange(0, first_material as int) == old(materials)@,
            forall|k: int|
                0 <= k < tiles@.len() ==> materials@[first_material + k] == expected_materials[k],
            forall|k: int| 0 <= k < tiles@.len() ==> tiles@[k] == expected_tiles[k],
        decreases grid.cols - col,
    {
        let mut row: u32 = 0;
        while row < grid.rows
            invariant
                col < grid.cols,
                row <= grid.rows,
                first_material == old(materials)@.len(),
                expected_materials == tile_materials(*settings, grid),
                expected_tiles == water_tiles(*settings, grid, mesh.index as nat, first_material),
                water_height == settings.height,
                tiles@.len() == col * grid.rows + row,
                tiles@.len() <= cell_count(grid),
                materials@.len() == first_material + tiles@.len(),
                materials@.subrange(0, first_material as int) == old(materials)@,
                forall|k: int|
                    0 <= k < tiles@.len() ==> materials@[first_material + k]
                        == expected_materials[k],
                forall|k: int| 0 <= k < tiles@.len() ==> tiles@[k] == expected_tiles[k],
            decreases grid.rows - row,
        {
            proof {
                lemma_cell_index(grid, col as int, row as int);
            }
            let coord_offset = cell_offset(grid, settings.tile_size, col, row);
            let ghost materials_before = materials@;
            let material = materials.register(WaterMaterial::for_tile(settings, coord_offset));
            tiles.push(
                WaterTile {
                    mesh,
                    material,
                    height: water_height,
                    offset: coord_offset,
                    casts_shadows: false,
                },
            );
            proof {
                assert(materials@.subrange(0, first_material as int) =~= materials_before.subrange(
                    0,
                    first_material as int,
                ));
            }
            row = row + 1;
        }
        proof {
            assert((col + 1) * grid.rows == col * grid.rows + grid.rows) by (nonlinear_arith);
        }
        col = col + 1;
    }
    proof {
        if grid.cols > 0 && grid.rows > 0 {
            lemma_cell_index(grid, grid.cols - 1, grid.rows - 1);
        } else {
            assert(grid.cols * grid.rows == 0) by (nonlinear_arith)
                requires
                    grid.cols == 0 || grid.rows == 0,
            ;
        }
        assert(tiles@ =~= expected_tiles);
        assert(materials@ =~= old(materials)@ + expected_materials);
        meshes.lemma_len_fits();
        materials.lemma_len_fits();
    }
    scene.spawn(Entity::Water(WaterRoot { tiles }));
}

/// The tiles of one spawn: one per grid cell, every one without a shadow and
/// at the settings' height, all with the same mesh, and the tile of cell `a`
/// with the material registered for cell `a`, which no other tile has.
pub proof fn lemma_tiles_share_mesh_not_material(
    settings: WaterSettings,
    grid: GridSize,
    mesh: nat,
    first_material: nat,
    a: int,
    b: int,
)
    requires
        mesh <= usize::MAX,
        first_material + cell_count(grid) <= usize::MAX,
        0 <= a < cell_count(grid),
        0 <= b < cell_count(grid),
    ensures
        water_tiles(settings, grid, mesh, first_material).len() == grid.cols * grid.rows,
        water_tiles(settings, grid, mesh, first_material)[a].mesh.index == mesh,
        water_tiles(settings, grid, mesh, first_material)[a].mesh == water_tiles(
            settings,
            grid,
            mesh,
            first_material,
        )[b].mesh,
        water_tiles(settings, grid, mesh, first_material)[a].material.index == first_material + a,
        a != b ==> water_tiles(settings, grid, mesh, first_material)[a].material != water_tiles(
            settings,
            grid,
            mesh,
            first_material,
        )[b].material,
        !water_tiles(settings, grid, mesh, first_material)[a].casts_shadows,
        water_tiles(settings, grid, mesh, first_material)[a].height == settings.height,
{
}

/// Whether the handles of `tile` resolve: the mesh handle to the plane of
/// the settings' tile size, the material handle to the material that the
/// settings give for the tile's own offset.
pub open spec fn tile_resolves(
    tile: WaterTile,
    settings: WaterSettings,
    meshes: Seq<Mesh>,
    materials: Seq<WaterMaterial>,
) -> bool {
    &&& tile.mesh.index < meshes.len()
    &&& meshes[tile.mesh.index as int] == water_mesh(settings.tile_size)
    &&& tile.material.index < materials.len()
    &&& materials[tile.material.index as int] == water_material(settings, tile.offset)
}

/// After a spawn over a grid, the handles of every new tile resolve: the
/// mesh handle to the shared plane, the material handle to a material that
/// holds the tile's own offset and the tile size as scale.
pub proof fn lemma_spawned_handles_resolve(
    settings: WaterSettings,
    grid: GridSize,
    entities_before: Seq<EntityView>,
    entities_after: Seq<EntityView>,
    meshes_before: Seq<Mesh>,
    meshes_after: Seq<Mesh>,
    materials_before: Seq<WaterMaterial>,
    materials_after: Seq<WaterMaterial>,
    k: int,
)
    requires
        settings.spawn_tiles == Some(grid),
        water_spawned(
            settings,
            entities_before,
            entities_after,
            meshes_before,
            meshes_after,
            materials_before,
            materials_after,
        ),
        0 <= k < cell_count(grid),
    ensures
        entities_after.len() == entities_before.len() + 1,
        entities_after.last() == EntityView::Water(
            water_tiles(settings, grid, meshes_before.len(), materials_before.len()),
        ),
        water_tiles(settings, grid, meshes_before.len(), materials_before.len()).len() == grid.cols
            * grid.rows,
        tile_resolves(
            water_tiles(settings, grid, meshes_before.len(), materials_before.len())[k],
            settings,
            meshes_after,
            materials_after,
        ),
{
    lemma_tiles_share_mesh_not_material(
        settings,
        grid,
        meshes_before.len(),
        materials_before.len(),
        k,
        k,
    );
}

/// With a positive tile size and a grid of at least one column and one row,
/// no two materials of one spawn are equal: their offsets differ.
pub proof fn lemma_tile_materials_distinct(settings: WaterSettings, grid: GridSize, a: int, b: int)
    requires
        grid.cols >= 1,
        grid.rows >= 1,
        settings.tile_size > 0,
        0 <= a < cell_count(grid),
        0 <= b < cell_count(grid),
        a != b,
    ensures
        tile_materials(settings, grid).len() == grid.cols * grid.rows,
        tile_materials(settings, grid)[a] != tile_materials(settings, grid)[b],
{
    lemma_layout_distinct(grid, settings.tile_size, a, b);
}

/// A spawn never removes or changes what was there: every earlier entity,
/// mesh and material is still in its place.
pub proof fn lemma_spawn_keeps_earlier(
    settings: WaterSettings,
    entities_before: Seq<EntityView>,
    entities_after: Seq<EntityView>,
    meshes_before: Seq<Mesh>,
    meshes_after: Seq<Mesh>,
    materials_before: Seq<WaterMaterial>,
    materials_after: Seq<WaterMaterial>,
)
    requires
        water_spawned(
            settings,
            entities_before,
            entities_after,
            meshes_before,
            meshes_after,
            materials_before,
            materials_after,
        ),
    ensures
        entities_before.is_prefix_of(entities_after),
        meshes_before.is_prefix_of(meshes_after),
        materials_before.is_prefix_of(materials_after),
{
}

/// Number of water roots that one spawn adds: one, or none without a grid.
pub open spec fn spawned_roots(settings: WaterSettings) -> nat {
    if settings.spawn_tiles is Some {
        1
    } else {
        0
    }
}

/// Number of tiles that one spawn adds: one per grid cell, or none without
/// a grid.
pub open spec fn spawned_tiles(settings: WaterSettings) -> nat {
    match settings.spawn_tiles {
        Some(grid) => cell_count(grid),
        None => 0,
    }
}

/// What a spawn adds: with a grid, one water root, one mesh, and one tile
/// and one material per grid cell; without a grid, nothing.
pub proof fn lemma_spawn_counts(
    settings: WaterSettings,
    entities_before: Seq<EntityView>,
    entities_after: Seq<EntityView>,
    meshes_before: Seq<Mesh>,
    meshes_after: Seq<Mesh>,
    materials_before: Seq<WaterMaterial>,
    materials_after: Seq<WaterMaterial>,
)
    requires
        water_spawned(
            settings,
            entities_before,
            entities_after,
            meshes_before,
            meshes_after,
            materials_before,
            materials_after,
        ),
    ensures
        entities_after.len() == entities_before.len() + spawned_roots(settings),
        water_root_count(entities_after) == water_root_count(entities_before) + spawned_roots(
            settings,
        ),
        water_tile_count(entities_after) == water_tile_count(entities_before) + spawned_tiles(
            settings,
        ),
        meshes_after.len() == meshes_before.len() + spawned_roots(settings),
        materials_after.len() == materials_before.len() + spawned_tiles(settings),
{
    match settings.spawn_tiles {
        None => {},
        Some(grid) => {
            lemma_counts_push(
                entities_before,
                EntityView::Water(
                    water_tiles(settings, grid, meshes_before.len(), materials_before.len()),
                ),
            );
        },
    }
}

/// Whether `after` is `before` with one more water root of `per_spawn` tiles.
pub open spec fn is_spawn_step(
    before: Seq<EntityView>,
    after: Seq<EntityView>,
    per_spawn: nat,
) -> bool {
    exists|tiles: Seq<WaterTile>|
        #[trigger] tiles.len() == per_spawn && after == before.push(EntityView::Water(tiles))
}

/// Whether `scenes` are the scenes seen after successive spawns of
/// `per_spawn` tiles each: every scene but the first is the one before it
/// with one more water root of that many tiles.
pub open spec fn successive_spawns(scenes: Seq<Seq<EntityView>>, per_spawn: nat) -> bool {
    forall|i: int|
        0 < i < scenes.len() ==> is_spawn_step(scenes[i - 1], #[trigger] scenes[i], per_spawn)
}

/// Spawns accumulate: after `n` spawns of `per_spawn` tiles each the scene
/// holds `n` more water roots and `n * per_spawn` more tiles than before the
/// first, and everything that was there before the first is still in place.
pub proof fn lemma_spawns_accumulate(scenes: Seq<Seq<EntityView>>, per_spawn: nat)
    requires
        scenes.len() >= 1,
        successive_spawns(scenes, per_spawn),
    ensures
        scenes.last().len() == scenes[0].len() + (scenes.len() - 1),
        water_root_count(scenes.last()) == water_root_count(scenes[0]) + (scenes.len() - 1),
        water_tile_count(scenes.last()) == water_tile_count(scenes[0]) + (scenes.len() - 1)
            * per_spawn,
        scenes[0].is_prefix_of(scenes.last()),
    decreases scenes.len(),
{
    if scenes.len() > 1 {
        let earlier = scenes.drop_last();
        let n = scenes.len() - 1;
        assert forall|i: int| 0 < i < earlier.len() implies is_spawn_step(
            earlier[i - 1],
            #[trigger] earlier[i],
            per_spawn,
        ) by {
            assert(is_spawn_step(scenes[i - 1], scenes[i], per_spawn));
        }
        lemma_spawns_accumulate(earlier, per_spawn);
        assert(is_spawn_step(scenes[n - 1], scenes[n], per_spawn));
        let tiles = choose|tiles: Seq<WaterTile>|
            #[trigger] tiles.len() == per_spawn && scenes[n] == scenes[n - 1].push(
                EntityView::Water(tiles),
            );
        lemma_counts_push(scenes[n - 1], EntityView::Water(tiles));
        assert((n - 1) * per_spawn + per_spawn == n * per_spawn) by (nonlinear_arith);
    }
}

} // verus!
