use water_scene::assets::Assets;
use water_scene::assets::Handle;
use water_scene::entity::Entity;
use water_scene::entity::Scene;
use water_scene::entity::WaterTile;
use water_scene::layout::grid_layout;
use water_scene::layout::GridSize;
use water_scene::layout::TileOffset;
use water_scene::material::Color;
use water_scene::material::Mesh;
use water_scene::material::Scalar;
use water_scene::material::WaterMaterial;
use water_scene::material::WaterSettings;
use water_scene::material::WATER_ROUGHNESS_BITS;
use water_scene::water::setup_water;

fn scalar(value: f32) -> Scalar {
    Scalar { bits: value.to_bits() }
}

fn color(red: f32, green: f32, blue: f32, alpha: f32) -> Color {
    Color {
        red: scalar(red),
        green: scalar(green),
        blue: scalar(blue),
        alpha: scalar(alpha),
    }
}

fn settings(spawn_tiles: Option<GridSize>, tile_size: u32) -> WaterSettings {
    WaterSettings {
        spawn_tiles,
        tile_size,
        height: scalar(1.0),
        base_color: color(1.0, 1.0, 1.0, 1.0),
        deep_color: color(0.2, 0.41, 0.54, 0.92),
        shallow_color: color(0.45, 0.78, 0.81, 1.0),
        edge_color: color(1.0, 1.0, 1.0, 1.0),
        amplitude: scalar(1.0),
        clarity: scalar(0.25),
        edge_scale: scalar(0.1),
    }
}

fn tiles_of(entity: &Entity) -> &Vec<WaterTile> {
    match entity {
        Entity::Water(root) => &root.tiles,
        _ => panic!("not a water root"),
    }
}

#[test]
fn roughness_is_twenty_two_hundredths() {
    assert_eq!(f32::from_bits(WATER_ROUGHNESS_BITS), 0.22);
}

#[test]
fn water_plane_is_cut_once_per_four_units() {
    assert_eq!(
        Mesh::water_plane(256),
        Mesh::Plane { length: 256, subdivisions: 64 }
    );
    assert_eq!(
        Mesh::water_plane(7),
        Mesh::Plane { length: 7, subdivisions: 1 }
    );
    assert_eq!(
        Mesh::water_plane(3),
        Mesh::Plane { length: 3, subdivisions: 0 }
    );
    assert_eq!(
        Mesh::water_plane(u32::MAX),
        Mesh::Plane { length: u32::MAX, subdivisions: u32::MAX / 4 }
    );
}

#[test]
fn material_takes_its_look_from_the_settings() {
    let s = settings(Some(GridSize { cols: 1, rows: 1 }), 256);
    let offset = TileOffset { twice_x: -512, twice_y: 1024 };
    let material = WaterMaterial::for_tile(&s, offset);
    assert_eq!(
        material,
        WaterMaterial {
            base_color: color(1.0, 1.0, 1.0, 1.0),
            perceptual_roughness: scalar(0.22),
            amplitude: scalar(1.0),
            clarity: scalar(0.25),
            deep_color: color(0.2, 0.41, 0.54, 0.92),
            shallow_color: color(0.45, 0.78, 0.81, 1.0),
            edge_color: color(1.0, 1.0, 1.0, 1.0),
            edge_scale: scalar(0.1),
            coord_offset: offset,
            coord_scale: 256,
        }
    );
}

#[test]
fn disabled_grid_spawns_nothing() {
    let mut scene = Scene::new();
    let mut meshes: Assets<Mesh> = Assets::new();
    let mut materials: Assets<WaterMaterial> = Assets::new();
    setup_water(&mut scene, &settings(None, 256), &mut meshes, &mut materials);
    assert!(scene.entities.is_empty());
    assert_eq!(meshes.len(), 0);
    assert_eq!(materials.len(), 0);
}

#[test]
fn disabled_grid_leaves_an_earlier_spawn_alone() {
    let mut scene = Scene::new();
    let mut meshes: Assets<Mesh> = Assets::new();
    let mut materials: Assets<WaterMaterial> = Assets::new();
    let grid = GridSize { cols: 2, rows: 2 };
    setup_water(&mut scene, &settings(Some(grid), 8), &mut meshes, &mut materials);
    setup_water(&mut scene, &settings(None, 8), &mut meshes, &mut materials);
    assert_eq!(scene.entities.len(), 1);
    assert_eq!(tiles_of(&scene.entities[0]).len(), 4);
    assert_eq!(meshes.len(), 1);
    assert_eq!(materials.len(), 4);
}

#[test]
fn two_by_two_spawns_four_tiles_with_one_mesh_and_four_materials() {
    for tile_size in [1u32, 16, 256] {
        let mut scene = Scene::new();
        let mut meshes: Assets<Mesh> = Assets::new();
        let mut materials: Assets<WaterMaterial> = Assets::new();
        let grid = GridSize { cols: 2, rows: 2 };
        setup_water(
            &mut scene,
            &settings(Some(grid), tile_size),
            &mut meshes,
            &mut materials,
        );
        assert_eq!(scene.entities.len(), 1);
        assert_eq!(meshes.len(), 1);
        assert_eq!(materials.len(), 4);
        let tiles = tiles_of(&scene.entities[0]);
        assert_eq!(tiles.len(), 4);
        for a in 0..4 {
            assert_eq!(tiles[a].mesh, tiles[0].mesh);
            for b in 0..a {
                assert_ne!(tiles[a].material, tiles[b].material);
            }
        }
    }
}

#[test]
fn spawned_tiles_follow_the_layout() {
    let mut scene = Scene::new();
    let mut meshes: Assets<Mesh> = Assets::new();
    let mut materials: Assets<WaterMaterial> = Assets::new();
    let grid = GridSize { cols: 3, rows: 2 };
    let s = settings(Some(grid), 20);
    setup_water(&mut scene, &s, &mut meshes, &mut materials);
    let layout = grid_layout(grid, 20);
    let tiles = tiles_of(&scene.entities[0]);
    assert_eq!(tiles.len(), 6);
    for k in 0..6 {
        assert_eq!(
            tiles[k],
            WaterTile {
                mesh: Handle { index: 0 },
                material: Handle { index: k },
                height: scalar(1.0),
                offset: layout[k],
                casts_shadows: false,
            }
        );
    }
    assert_eq!(tiles[0].offset, TileOffset { twice_x: -60, twice_y: -40 });
    assert_eq!(tiles[5].offset, TileOffset { twice_x: 20, twice_y: 0 });
}

#[test]
fn every_tile_has_a_material_with_its_own_offset() {
    let mut scene = Scene::new();
    let mut meshes: Assets<Mesh> = Assets::new();
    let mut materials: Assets<WaterMaterial> = Assets::new();
    let grid = GridSize { cols: 2, rows: 3 };
    let s = settings(Some(grid), 64);
    setup_water(&mut scene, &s, &mut meshes, &mut materials);
    for tile in tiles_of(&scene.entities[0]) {
        assert_eq!(
            meshes.get(tile.mesh),
            Some(&Mesh::Plane { length: 64, subdivisions: 16 })
        );
        assert_eq!(
            materials.get(tile.material),
            Some(&WaterMaterial::for_tile(&s, tile.offset))
        );
        let material = materials.get(tile.material).unwrap();
        assert_eq!(material.coord_offset, tile.offset);
        assert_eq!(material.coord_scale, 64);
    }
}

#[test]
fn second_spawn_gets_new_handles() {
    let mut scene = Scene::new();
    let mut meshes: Assets<Mesh> = Assets::new();
    let mut materials: Assets<WaterMaterial> = Assets::new();
    let grid = GridSize { cols: 2, rows: 2 };
    let s = settings(Some(grid), 256);
    setup_water(&mut scene, &s, &mut meshes, &mut materials);
    setup_water(&mut scene, &s, &mut meshes, &mut materials);
    assert_eq!(scene.entities.len(), 2);
    assert_eq!(meshes.len(), 2);
    assert_eq!(materials.len(), 8);
    let first = tiles_of(&scene.entities[0]);
    let second = tiles_of(&scene.entities[1]);
    for k in 0..4 {
        assert_eq!(first[k].mesh, Handle { index: 0 });
        assert_eq!(second[k].mesh, Handle { index: 1 });
        assert_eq!(first[k].material, Handle { index: k });
        assert_eq!(second[k].material, Handle { index: 4 + k });
        assert_eq!(first[k].offset, second[k].offset);
    }
}

#[test]
fn grid_without_cells_spawns_a_root_without_tiles() {
    let mut scene = Scene::new();
    let mut meshes: Assets<Mesh> = Assets::new();
    let mut materials: Assets<WaterMaterial> = Assets::new();
    let grid = GridSize { cols: 0, rows: 4 };
    setup_water(&mut scene, &settings(Some(grid), 256), &mut meshes, &mut materials);
    assert_eq!(scene.entities.len(), 1);
    assert!(tiles_of(&scene.entities[0]).is_empty());
    assert_eq!(meshes.len(), 1);
    assert_eq!(materials.len(), 0);
}

#[test]
fn six_by_six_spawns_thirty_six_tiles() {
    let mut scene = Scene::new();
    let mut meshes: Assets<Mesh> = Assets::new();
    let mut materials: Assets<WaterMaterial> = Assets::new();
    let grid = GridSize { cols: 6, rows: 6 };
    setup_water(&mut scene, &settings(Some(grid), 256), &mut meshes, &mut materials);
    let tiles = tiles_of(&scene.entities[0]);
    assert_eq!(tiles.len(), 36);
    assert_eq!(materials.len(), 36);
    assert_eq!(meshes.len(), 1);
    assert_eq!(tiles[0].offset, TileOffset { twice_x: -1536, twice_y: -1536 });
    assert_eq!(tiles[35].offset, TileOffset { twice_x: 1024, twice_y: 1024 });
}
