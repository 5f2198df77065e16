use water_scene::layout::axis_offset;
use water_scene::layout::cell_offset;
use water_scene::layout::grid_layout;
use water_scene::layout::GridSize;
use water_scene::layout::TileOffset;

#[test]
fn axis_offset_is_twice_the_centred_offset() {
    assert_eq!(axis_offset(0, 256, 6), -1536);
    assert_eq!(axis_offset(1, 256, 6), -1024);
    assert_eq!(axis_offset(3, 256, 6), 0);
    assert_eq!(axis_offset(5, 256, 6), 1024);
}

#[test]
fn axis_offset_keeps_half_units_of_odd_extents() {
    // Three tiles of size three: the centre is at four and a half.
    assert_eq!(axis_offset(0, 3, 3), -9);
    assert_eq!(axis_offset(1, 3, 3), -3);
    assert_eq!(axis_offset(2, 3, 3), 3);
}

#[test]
fn axis_offset_centres_over_the_extent_it_is_given() {
    // The same index lies elsewhere when centred over another extent.
    assert_eq!(axis_offset(1, 256, 2), 0);
    assert_eq!(axis_offset(1, 256, 6), -1024);
    assert_eq!(axis_offset(6, 256, 6), 1536);
}

#[test]
fn axis_offset_of_largest_inputs_does_not_overflow() {
    let m = u32::MAX;
    let big = m as i128;
    assert_eq!(axis_offset(m, m, m), big * big);
    assert_eq!(axis_offset(0, m, m), -(big * big));
    assert_eq!(axis_offset(m, m, 0), 2 * big * big);
}

#[test]
fn axis_offset_of_size_zero_is_zero() {
    assert_eq!(axis_offset(7, 0, 9), 0);
}

#[test]
fn cell_offset_centres_each_axis_over_its_own_extent() {
    let grid = GridSize { cols: 4, rows: 2 };
    assert_eq!(
        cell_offset(grid, 10, 0, 0),
        TileOffset { twice_x: -40, twice_y: -20 }
    );
    assert_eq!(
        cell_offset(grid, 10, 3, 1),
        TileOffset { twice_x: 20, twice_y: 0 }
    );
}

#[test]
fn layout_of_two_by_two() {
    let offsets = grid_layout(GridSize { cols: 2, rows: 2 }, 10);
    assert_eq!(
        offsets,
        vec![
            TileOffset { twice_x: -20, twice_y: -20 },
            TileOffset { twice_x: -20, twice_y: 0 },
            TileOffset { twice_x: 0, twice_y: -20 },
            TileOffset { twice_x: 0, twice_y: 0 },
        ]
    );
}

#[test]
fn layout_runs_through_rows_first() {
    let grid = GridSize { cols: 3, rows: 2 };
    let offsets = grid_layout(grid, 7);
    assert_eq!(offsets.len(), 6);
    for col in 0..3u32 {
        for row in 0..2u32 {
            let k = (col * 2 + row) as usize;
            assert_eq!(offsets[k], cell_offset(grid, 7, col, row));
        }
    }
}

#[test]
fn layout_has_one_distinct_offset_per_cell() {
    for cols in 1..6u32 {
        for rows in 1..6u32 {
            for size in [1u32, 2, 3, 256] {
                let offsets = grid_layout(GridSize { cols, rows }, size);
                assert_eq!(offsets.len(), (cols * rows) as usize);
                for a in 0..offsets.len() {
                    for b in 0..a {
                        assert_ne!(offsets[a], offsets[b]);
                    }
                }
            }
        }
    }
}

#[test]
fn layout_neighbours_are_one_tile_apart() {
    let grid = GridSize { cols: 5, rows: 4 };
    let size = 12u32;
    let offsets = grid_layout(grid, size);
    for col in 0..5usize {
        for row in 0..4usize {
            let here = offsets[col * 4 + row];
            if row + 1 < 4 {
                let next = offsets[col * 4 + row + 1];
                assert_eq!(next.twice_y - here.twice_y, 2 * size as i128);
                assert_eq!(next.twice_x, here.twice_x);
            }
            if col + 1 < 5 {
                let next = offsets[(col + 1) * 4 + row];
                assert_eq!(next.twice_x - here.twice_x, 2 * size as i128);
                assert_eq!(next.twice_y, here.twice_y);
            }
        }
    }
}

#[test]
fn layout_without_columns_or_rows_is_empty() {
    assert!(grid_layout(GridSize { cols: 0, rows: 5 }, 256).is_empty());
    assert!(grid_layout(GridSize { cols: 5, rows: 0 }, 256).is_empty());
    assert!(grid_layout(GridSize { cols: 0, rows: 0 }, 256).is_empty());
}

#[test]
fn layout_with_tiles_of_size_zero_puts_every_tile_at_the_origin() {
    let offsets = grid_layout(GridSize { cols: 2, rows: 3 }, 0);
    assert_eq!(offsets.len(), 6);
    for offset in offsets {
        assert_eq!(offset, TileOffset { twice_x: 0, twice_y: 0 });
    }
}

#[test]
fn covered_span_is_symmetric_about_the_origin() {
    for extent in 1..9u32 {
        for size in [1u32, 5, 256] {
            let low = axis_offset(0, size, extent);
            let high = axis_offset(extent - 1, size, extent);
            // Low edge of the first tile against high edge of the last.
            assert_eq!(low + (high + 2 * size as i128), 0);
            // The extreme offsets themselves are one tile short of it.
            assert_eq!(low + high, -2 * (size as i128));
        }
    }
}

#[test]
fn even_extents_give_whole_units() {
    for extent in [2u32, 4, 6, 8] {
        for index in 0..extent {
            assert_eq!(axis_offset(index, 3, extent) % 2, 0);
        }
    }
}

#[test]
fn six_by_six_of_256_agrees_with_real_arithmetic() {
    let size = 256u32;
    let grid = GridSize { cols: 6, rows: 6 };
    let centre = (size * 6) as f32 / 2.0;
    let offsets = grid_layout(grid, size);
    assert_eq!(offsets.len(), 36);
    for x in 0..6u32 {
        for y in 0..6u32 {
            let offset = offsets[(x * 6 + y) as usize];
            assert_eq!(offset.twice_x as f32 / 2.0, (x * size) as f32 - centre);
            assert_eq!(offset.twice_y as f32 / 2.0, (y * size) as f32 - centre);
        }
    }
    assert_eq!(offsets[0], TileOffset { twice_x: -1536, twice_y: -1536 });
    assert_eq!(offsets[35], TileOffset { twice_x: 1024, twice_y: 1024 });
}
