//! Slope derivation and material classification: piste and water follow the
//! surface directly; plain ground picks snow, dirt or rock by how steep the
//! cell is.
//!
//! Corner heights are in sixths of a height unit, so the slope of a cell —
//! the spread between its highest and lowest corner — is in sixths too, and
//! the whole-unit thresholds are scaled by six where they are compared.

use vstd::prelude::*;
use crate::grid::{spec_corner_height, Grid};
use crate::hex::{HexCoord, HexCorner};
use crate::surface::Surface;

verus! {

/// Steeper than this many whole units of corner spread, snow no longer
/// settles and the ground shows dirt.
pub const SNOW_MAX_SLOPE: u16 = 3;

/// Steeper than this many whole units of corner spread, even dirt does not
/// hold and the ground shows bare rock.
pub const DIRT_MAX_SLOPE: u16 = 4;

/// The ground material a cell is drawn with.
#[derive(Debug, PartialEq, Eq, Structural, PartialOrd, Ord, Clone, Copy, Hash)]
pub enum MaterialKind {
    Piste,
    Water,
    Rock,
    Dirt,
    Snow,
}

pub open spec fn spec_max2(a: int, b: int) -> int {
    if a >= b {
        a
    } else {
        b
    }
}

pub open spec fn spec_min2(a: int, b: int) -> int {
    if a <= b {
        a
    } else {
        b
    }
}

/// The slope of a cell, in sixths of a height unit: the spread between the
/// highest and the lowest of its six corner heights.
pub open spec fn spec_cell_slope(m: Map<HexCoord, u16>, pos: HexCoord) -> int {
    let h0 = spec_corner_height(m, pos, HexCorner::TopRight);
    let h1 = spec_corner_height(m, pos, HexCorner::MiddleRight);
    let h2 = spec_corner_height(m, pos, HexCorner::BottomRight);
    let h3 = spec_corner_height(m, pos, HexCorner::BottomLeft);
    let h4 = spec_corner_height(m, pos, HexCorner::MiddleLeft);
    let h5 = spec_corner_height(m, pos, HexCorner::TopLeft);
    spec_max2(h0, spec_max2(h1, spec_max2(h2, spec_max2(h3, spec_max2(h4, h5))))) - spec_min2(
        h0,
        spec_min2(h1, spec_min2(h2, spec_min2(h3, spec_min2(h4, h5)))),
    )
}

/// The slope of a cell, in sixths of a height unit.
pub fn cell_slope(grid: &Grid, pos: HexCoord) -> (s: u32)
    requires
        grid.wf(),
        grid.height_map().contains_key(pos),
        i32::MIN < pos.q < i32::MAX,
        i32::MIN < pos.r < i32::MAX,
    ensures
        s == spec_cell_slope(grid.height_map(), pos),
{
    let h0 = grid.corner_height(pos, HexCorner::TopRight);
    let h1 = grid.corner_height(pos, HexCorner::MiddleRight);
    let h2 = grid.corner_height(pos, HexCorner::BottomRight);
    let h3 = grid.corner_height(pos, HexCorner::BottomLeft);
    let h4 = grid.corner_height(pos, HexCorner::MiddleLeft);
    let h5 = grid.corner_height(pos, HexCorner::TopLeft);
    let mut high: u32 = h0;
    let mut low: u32 = h0;
    if h1 > high {
        high = h1;
    }
    if h2 > high {
        high = h2;
    }
    if h3 > high {
        high = h3;
    }
    if h4 > high {
        high = h4;
    }
    if h5 > high {
        high = h5;
    }
    if h1 < low {
        low = h1;
    }
    if h2 < low {
        low = h2;
    }
    if h3 < low {
        low = h3;
    }
    if h4 < low {
        low = h4;
    }
    if h5 < low {
        low = h5;
    }
    high - low
}

/// The material of a cell. Piste and water win outright; otherwise the
/// slope decides, rock above the dirt threshold, dirt above the snow
/// threshold, snow below both.
pub open spec fn spec_classify(g: Grid, pos: HexCoord) -> MaterialKind {
    if g.surface_map()[pos] == Surface::Piste {
        MaterialKind::Piste
    } else if g.surface_map()[pos] == Surface::Water {
        MaterialKind::Water
    } else if spec_cell_slope(g.height_map(), pos) > 6 * (DIRT_MAX_SLOPE as int) {
        MaterialKind::Rock
    } else if spec_cell_slope(g.height_map(), pos) > 6 * (SNOW_MAX_SLOPE as int) {
        MaterialKind::Dirt
    } else {
        MaterialKind::Snow
    }
}

/// Picks the material a cell is drawn with, from the current grid state
/// alone. Callers must re-invoke it after any height or surface mutation of
/// the cell or its neighbors, since the slope reads neighboring heights.
pub fn classify_material(grid: &Grid, pos: HexCoord) -> (m: MaterialKind)
    requires
        grid.wf(),
        grid.height_map().contains_key(pos),
        i32::MIN < pos.q < i32::MAX,
        i32::MIN < pos.r < i32::MAX,
    ensures
        m == spec_classify(*grid, pos),
{
    proof {
        grid.lemma_height_surface_same_cells();
    }
    let surface = cell_surface(grid, pos);
    match surface {
        Surface::Piste => MaterialKind::Piste,
        Surface::Water => MaterialKind::Water,
        Surface::Normal => {
            let slope = cell_slope(grid, pos);
            if slope > 6 * (DIRT_MAX_SLOPE as u32) {
                MaterialKind::Rock
            } else if slope > 6 * (SNOW_MAX_SLOPE as u32) {
                MaterialKind::Dirt
            } else {
                MaterialKind::Snow
            }
        },
    }
}

/// The surface of a cell known to exist.
fn cell_surface(grid: &Grid, pos: HexCoord) -> (s: Surface)
    requires
        grid.wf(),
        grid.surface_map().contains_key(pos),
    ensures
        s == grid.surface_map()[pos],
{
    grid.surface_of(pos).unwrap()
}

/// Classification is a pure function of the grid state: two grids that
/// agree on their height and surface fields classify every cell alike, so
/// repeated queries on an unmutated grid always return the same material.
pub proof fn lemma_classify_deterministic(g1: Grid, g2: Grid, pos: HexCoord)
    requires
        g1.height_map() == g2.height_map(),
        g1.surface_map() == g2.surface_map(),
    ensures
        spec_classify(g1, pos) == spec_classify(g2, pos),
{
}

} // verus!
