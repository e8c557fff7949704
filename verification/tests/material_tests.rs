use hex_terrain::grid::{CellSample, Grid, WorldGenSettings};
use hex_terrain::hex::offset_to_axial;
use hex_terrain::material::{
    cell_slope, classify_material, MaterialKind, DIRT_MAX_SLOPE, SNOW_MAX_SLOPE,
};
use hex_terrain::surface::Surface;

/// A single column of cells with the given heights.
fn column_grid(heights: &[i64]) -> Grid {
    let samples: Vec<CellSample> = heights
        .iter()
        .map(|h| CellSample { floor_height: *h, tree: false })
        .collect();
    Grid::new(1, heights.len() as u16, WorldGenSettings::default(), &samples)
}

#[test]
fn thresholds_are_the_documented_constants() {
    assert_eq!(SNOW_MAX_SLOPE, 3);
    assert_eq!(DIRT_MAX_SLOPE, 4);
}

#[test]
fn flat_ground_is_snow() {
    let grid = column_grid(&[0, 0, 0]);
    let pos = offset_to_axial(0, 1);
    assert_eq!(cell_slope(&grid, pos), 0);
    assert_eq!(classify_material(&grid, pos), MaterialKind::Snow);
}

#[test]
fn slope_in_sixths_matches_corner_spread() {
    // The middle cell of a column sees its lower neighbor through two
    // corners and its higher neighbor through two others, so its spread is
    // three times the height step, in sixths.
    let grid = column_grid(&[0, 0, 7]);
    let pos = offset_to_axial(0, 1);
    assert_eq!(cell_slope(&grid, pos), 21);
}

#[test]
fn slope_thresholds_pick_snow_dirt_rock() {
    // Spread 18 sixths = 3 whole units: still snow.
    let snow = column_grid(&[0, 0, 6]);
    // Spread 21 sixths = 3.5 units: dirt.
    let dirt = column_grid(&[0, 0, 7]);
    // Spread 27 sixths = 4.5 units: rock.
    let rock = column_grid(&[0, 0, 9]);
    let pos = offset_to_axial(0, 1);
    assert_eq!(classify_material(&snow, pos), MaterialKind::Snow);
    assert_eq!(classify_material(&dirt, pos), MaterialKind::Dirt);
    assert_eq!(classify_material(&rock, pos), MaterialKind::Rock);
}

#[test]
fn piste_and_water_win_over_slope() {
    let mut grid = column_grid(&[0, 0, 9]);
    let steep = offset_to_axial(0, 1);
    assert_eq!(classify_material(&grid, steep), MaterialKind::Rock);
    grid.set_surface(steep, Surface::Piste).expect("laying piste succeeds");
    assert_eq!(classify_material(&grid, steep), MaterialKind::Piste);

    let wet = Grid::new(
        1,
        1,
        WorldGenSettings::default(),
        &vec![CellSample { floor_height: -10, tree: false }],
    );
    assert_eq!(classify_material(&wet, offset_to_axial(0, 0)), MaterialKind::Water);
}

#[test]
fn classification_is_deterministic_and_tracks_neighbors() {
    let mut grid = column_grid(&[0, 0, 6]);
    let pos = offset_to_axial(0, 1);
    let neighbor = offset_to_axial(0, 2);

    // An unmutated grid answers the same twice.
    assert_eq!(classify_material(&grid, pos), classify_material(&grid, pos));
    assert_eq!(classify_material(&grid, pos), MaterialKind::Snow);

    // Raising a neighbor pushes the slope over each threshold in turn.
    grid.raise(neighbor).expect("raising succeeds");
    assert_eq!(classify_material(&grid, pos), MaterialKind::Dirt);
    grid.raise(neighbor).expect("raising succeeds");
    grid.raise(neighbor).expect("raising succeeds");
    assert_eq!(classify_material(&grid, pos), MaterialKind::Rock);
}
