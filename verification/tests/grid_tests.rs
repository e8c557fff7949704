use hex_terrain::grid::{CellSample, Grid, GridError, WorldGenSettings, TREE_STRUCTURE_ID};
use hex_terrain::hex::{offset_to_axial, HexCoord, HexCorner};
use hex_terrain::object::{ObjectInstance, StructureInstance};
use hex_terrain::surface::Surface;

fn sample_count(width: u16, length: u16) -> usize {
    width as usize * length as usize + width as usize / 2
}

fn flat_samples(width: u16, length: u16) -> Vec<CellSample> {
    vec![CellSample { floor_height: 0, tree: false }; sample_count(width, length)]
}

fn flat_grid(width: u16, length: u16) -> Grid {
    Grid::new(width, length, WorldGenSettings::default(), &flat_samples(width, length))
}

/// One column per sample vector entry, in generation order.
fn grid_from_heights(width: u16, length: u16, heights: &[i64]) -> Grid {
    let samples: Vec<CellSample> = heights
        .iter()
        .map(|h| CellSample { floor_height: *h, tree: false })
        .collect();
    assert_eq!(samples.len(), sample_count(width, length));
    Grid::new(width, length, WorldGenSettings::default(), &samples)
}

#[test]
fn degenerate_flat_grid_end_to_end() {
    let settings = WorldGenSettings { peak_height: 0, peak_width: 30, slope_height: 0 };
    let samples = flat_samples(5, 5);
    let mut grid = Grid::new(5, 5, settings, &samples);

    assert_eq!(grid.cell_count(), 27);
    for pos in grid.cells() {
        assert_eq!(grid.height_of(pos), Some(0));
        assert_eq!(grid.surface_of(pos), Some(Surface::Normal));
    }

    let origin = offset_to_axial(0, 0);
    assert_eq!(grid.get_cell_objects(origin), None);
    let id = grid
        .place_structure(StructureInstance::new(111, origin))
        .expect("placing on a free cell succeeds");
    assert_eq!(grid.get_cell_objects(origin), Some(vec![id]));
    grid.remove_object(id).expect("removing a placed structure succeeds");
    assert_eq!(grid.get_cell_objects(origin), None);
}

#[test]
fn generation_records_every_staggered_cell() {
    let grid = flat_grid(4, 3);
    // Columns 0..4 with one extra row on odd columns.
    assert_eq!(grid.cell_count(), 4 * 3 + 2);
    for col in 0..4i32 {
        let rows = 3 + (col % 2);
        for row in 0..rows {
            let pos = offset_to_axial(col, row);
            assert!(grid.height_of(pos).is_some(), "missing cell {:?}", pos);
        }
        assert!(grid.height_of(offset_to_axial(col, rows)).is_none());
    }
}

#[test]
fn generation_heights_water_and_trees() {
    // One column, three rows: a water cell whose tree wish is suppressed,
    // a hill cell with a tree, a plain cell.
    let samples = vec![
        CellSample { floor_height: -5, tree: true },
        CellSample { floor_height: 2, tree: true },
        CellSample { floor_height: 0, tree: false },
    ];
    let grid = Grid::new(1, 3, WorldGenSettings::default(), &samples);

    let c0 = offset_to_axial(0, 0);
    let c1 = offset_to_axial(0, 1);
    let c2 = offset_to_axial(0, 2);
    assert_eq!(grid.height_of(c0), Some(0));
    assert_eq!(grid.surface_of(c0), Some(Surface::Water));
    assert_eq!(grid.height_of(c1), Some(2));
    assert_eq!(grid.surface_of(c1), Some(Surface::Normal));
    assert_eq!(grid.height_of(c2), Some(0));
    assert_eq!(grid.surface_of(c2), Some(Surface::Normal));

    // Only the non-water tree wish was honored, with the first id.
    assert_eq!(grid.get_cell_objects(c0), None);
    assert_eq!(grid.get_cell_objects(c1), Some(vec![0]));
    match grid.get_object(0) {
        Some(ObjectInstance::Structure(instance)) => {
            assert_eq!(instance.structure_id, TREE_STRUCTURE_ID);
            assert_eq!(instance.pos, c1);
        },
        other => panic!("expected a tree structure, got {:?}", other),
    }
}

#[test]
fn water_threshold_is_exclusive() {
    // Exactly the threshold is not yet water; one unit below it is.
    let samples = vec![
        CellSample { floor_height: -3, tree: false },
        CellSample { floor_height: -4, tree: false },
    ];
    let grid = Grid::new(1, 2, WorldGenSettings::default(), &samples);
    assert_eq!(grid.surface_of(offset_to_axial(0, 0)), Some(Surface::Normal));
    assert_eq!(grid.surface_of(offset_to_axial(0, 1)), Some(Surface::Water));
}

#[test]
fn generation_clamps_heights_at_the_storable_range() {
    let samples = vec![
        CellSample { floor_height: -1, tree: false },
        CellSample { floor_height: 65535, tree: false },
        CellSample { floor_height: 70000, tree: false },
    ];
    let grid = Grid::new(1, 3, WorldGenSettings::default(), &samples);
    assert_eq!(grid.height_of(offset_to_axial(0, 0)), Some(0));
    assert_eq!(grid.height_of(offset_to_axial(0, 1)), Some(u16::MAX));
    assert_eq!(grid.height_of(offset_to_axial(0, 2)), Some(u16::MAX));
}

#[test]
fn raise_and_lower_round_trip() {
    let mut grid = flat_grid(3, 3);
    let pos = offset_to_axial(1, 1);
    let before = grid.height_of(pos);

    let refresh = grid.raise(pos).expect("raising an existing cell succeeds");
    assert!(refresh.meshes && refresh.materials && refresh.structure_heights);
    assert_eq!(grid.height_of(pos), Some(1));

    grid.lower(pos).expect("lowering a raised cell succeeds");
    assert_eq!(grid.height_of(pos), before);
}

#[test]
fn lower_at_zero_fails_without_change() {
    let mut grid = flat_grid(3, 3);
    let pos = offset_to_axial(0, 0);
    assert_eq!(grid.lower(pos), Err(GridError::HeightAtMinimum));
    assert_eq!(grid.height_of(pos), Some(0));
}

#[test]
fn height_edits_on_unknown_cells_fail() {
    let mut grid = flat_grid(2, 2);
    let outside = HexCoord { q: 40, r: 40 };
    assert_eq!(grid.raise(outside), Err(GridError::UnknownCell));
    assert_eq!(grid.lower(outside), Err(GridError::UnknownCell));
}

#[test]
fn surface_transitions() {
    let samples = vec![
        CellSample { floor_height: 0, tree: false },
        CellSample { floor_height: -9, tree: false },
    ];
    let mut grid = Grid::new(1, 2, WorldGenSettings::default(), &samples);
    let normal_cell = offset_to_axial(0, 0);
    let water_cell = offset_to_axial(0, 1);

    // Normal ground takes piste, and piste reverts to normal.
    grid.set_surface(normal_cell, Surface::Piste).expect("laying piste succeeds");
    assert_eq!(grid.surface_of(normal_cell), Some(Surface::Piste));
    assert_eq!(
        grid.set_surface(normal_cell, Surface::Piste),
        Err(GridError::InvalidSurfaceChange)
    );
    grid.set_surface(normal_cell, Surface::Normal).expect("clearing piste succeeds");
    assert_eq!(grid.surface_of(normal_cell), Some(Surface::Normal));

    // Water cannot be edited, nothing can be turned into water, and an
    // unknown cell is refused.
    assert_eq!(
        grid.set_surface(water_cell, Surface::Piste),
        Err(GridError::InvalidSurfaceChange)
    );
    assert_eq!(grid.surface_of(water_cell), Some(Surface::Water));
    assert_eq!(
        grid.set_surface(normal_cell, Surface::Water),
        Err(GridError::InvalidSurfaceChange)
    );
    assert_eq!(
        grid.set_surface(HexCoord { q: 9, r: 9 }, Surface::Piste),
        Err(GridError::UnknownCell)
    );
}

#[test]
fn instance_ids_grow_and_are_never_reused() {
    let mut grid = flat_grid(3, 3);
    let a = offset_to_axial(0, 0);
    let b = offset_to_axial(1, 0);
    let c = offset_to_axial(2, 0);

    let id0 = grid.push_object(ObjectInstance::Structure(StructureInstance::new(111, a)));
    let id1 = grid.push_object(ObjectInstance::Structure(StructureInstance::new(111, b)));
    let id2 = grid.push_object(ObjectInstance::Structure(StructureInstance::new(111, c)));
    assert!(id0 < id1 && id1 < id2);
    assert_eq!((id0, id1, id2), (0, 1, 2));

    // Removing the newest object does not free its id.
    grid.remove_object(id2).expect("removing a placed object succeeds");
    let id3 = grid.push_object(ObjectInstance::Structure(StructureInstance::new(222, c)));
    assert!(id3 > id2);
    assert_eq!(id3, 3);
}

#[test]
fn remove_unknown_instance_fails() {
    let mut grid = flat_grid(2, 2);
    assert_eq!(grid.remove_object(17), Err(GridError::UnknownInstance));
}

#[test]
fn placement_respects_occupancy() {
    let mut grid = flat_grid(3, 3);
    let pos = offset_to_axial(1, 1);
    let other = offset_to_axial(2, 1);

    let id = grid
        .place_structure(StructureInstance::new(111, pos))
        .expect("placing on a free cell succeeds");
    assert_eq!(grid.get_cell_objects(pos), Some(vec![id]));

    // A second structure on the same cell is refused with no mutation.
    assert_eq!(
        grid.place_structure(StructureInstance::new(222, pos)),
        Err(GridError::CellOccupied)
    );
    assert_eq!(grid.get_cell_objects(pos), Some(vec![id]));

    // Another cell is still free.
    let id2 = grid
        .place_structure(StructureInstance::new(222, other))
        .expect("placing on another free cell succeeds");
    assert!(id2 > id);
}

#[test]
fn lifts_are_invisible_to_occupancy_queries() {
    let mut grid = flat_grid(2, 2);
    let pos = offset_to_axial(0, 0);
    let node = StructureInstance::new(111, pos);
    grid.push_object(ObjectInstance::Lift(hex_terrain::object::LiftInstance {
        nodes: vec![(hex_terrain::object::LiftNode::Station, node)],
    }));
    assert_eq!(grid.get_cell_objects(pos), None);
}

#[test]
fn corner_heights_are_exact_sixths() {
    // Two staggered columns, heights in generation order:
    // (0,0)=6, (0,1)=12, (1,-1)=18, (1,0)=24, (1,1)=30.
    let grid = grid_from_heights(2, 2, &[6, 12, 18, 24, 30]);
    let origin = offset_to_axial(0, 0);

    // All three cells around the middle-right corner exist.
    assert_eq!(grid.corner_height(origin, HexCorner::MiddleRight), 2 * (6 + 18 + 24));
    // Only the top-right neighbor exists.
    assert_eq!(grid.corner_height(origin, HexCorner::TopRight), 3 * (6 + 18));
    // No neighbor exists: the cell's own height stands alone.
    assert_eq!(grid.corner_height(origin, HexCorner::TopLeft), 6 * 6);
}

#[test]
fn corner_heights_are_safe_on_every_boundary_cell() {
    let grid = grid_from_heights(2, 2, &[6, 12, 18, 24, 30]);
    let corners = HexCorner::get_array();
    for pos in grid.cells() {
        for corner in corners {
            let h = grid.corner_height(pos, corner);
            assert!(h <= 6 * u16::MAX as u32);
        }
    }
}

#[test]
fn corner_vertices_assemble_positions_and_heights() {
    let grid = grid_from_heights(2, 2, &[6, 12, 18, 24, 30]);
    let origin = offset_to_axial(0, 0);
    let center = hex_terrain::hex::axial_to_xz(&origin);
    let vertices = grid.corner_vertices(origin);
    let corners = HexCorner::get_array();
    assert_eq!(vertices.len(), 6);
    for (i, corner) in corners.iter().enumerate() {
        let offset = corner.to_xz();
        assert_eq!(vertices[i].0.x_half, center.x_half + offset.x_half);
        assert_eq!(vertices[i].0.z_rt3_half, center.z_rt3_half + offset.z_rt3_half);
        assert_eq!(vertices[i].1, grid.corner_height(origin, *corner));
    }
    // Adjacent cells agree on a shared corner: the middle-right corner of
    // the origin is the top-left corner of the cell across its bottom-right
    // edge, so meshes built from these vertices meet seamlessly.
    let lower_right = offset_to_axial(1, 1);
    assert_eq!(
        grid.corner_height(origin, HexCorner::MiddleRight),
        grid.corner_height(lower_right, HexCorner::TopLeft),
    );
}

#[test]
fn height_and_surface_key_sets_stay_equal() {
    let mut grid = flat_grid(3, 2);
    let pos = offset_to_axial(1, 1);
    grid.raise(pos).expect("raising an existing cell succeeds");
    grid.set_surface(pos, Surface::Piste).expect("laying piste succeeds");
    grid.push_object(ObjectInstance::Structure(StructureInstance::new(111, pos)));

    for cell in grid.cells() {
        assert!(grid.height_of(cell).is_some());
        assert!(grid.surface_of(cell).is_some());
    }
    // And no surface entry exists outside the height map's keys: the cell
    // listing is complete, so a probe outside it misses both maps.
    let outside = HexCoord { q: 77, r: 0 };
    assert!(grid.height_of(outside).is_none());
    assert!(grid.surface_of(outside).is_none());
}

#[test]
fn empty_grid_is_valid() {
    let grid = Grid::new(0, 0, WorldGenSettings::default(), &Vec::new());
    assert_eq!(grid.cell_count(), 0);
    assert_eq!(grid.width(), 0);
    assert_eq!(grid.length(), 0);
}

#[test]
fn settings_are_recorded() {
    let settings = WorldGenSettings { peak_height: 7, peak_width: 11, slope_height: 13 };
    let grid = Grid::new(1, 1, settings, &flat_samples(1, 1));
    assert_eq!(grid.settings(), settings);
    assert_eq!(WorldGenSettings::default().peak_height, 10);
    assert_eq!(WorldGenSettings::default().peak_width, 30);
    assert_eq!(WorldGenSettings::default().slope_height, 40);
}
