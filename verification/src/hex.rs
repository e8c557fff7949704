//! Axial hex coordinates for a flat-top tiling, the six edge directions and
//! six corners of a cell, and exact conversions to planar positions.
//!
//! Planar positions are kept exact by scaling: along x the unit is half the
//! hex size (the true x is `x_half / 2`), and along z the unit is sqrt(3)/2
//! (the true z is `z_rt3_half * sqrt(3) / 2`). Every position this module
//! produces is an integer in those units, so no precision is lost.

use vstd::prelude::*;

verus! {

/// Axial coordinates (q, r) identifying one cell of the hex grid.
#[derive(Debug, PartialEq, Eq, Structural, Clone, Copy, Hash)]
pub struct HexCoord {
    pub q: i32,
    pub r: i32,
}

/// An exact planar position: x in halves of the hex size, z in multiples
/// of sqrt(3)/2.
#[derive(Debug, PartialEq, Eq, Structural, Clone, Copy, Hash)]
pub struct Planar {
    pub x_half: i64,
    pub z_rt3_half: i64,
}

impl HexCoord {
    pub fn new(q: i32, r: i32) -> (c: HexCoord)
        ensures
            c.q == q,
            c.r == r,
    {
        HexCoord { q, r }
    }

    /// The cell across the given edge.
    pub open spec fn spec_neighbor(self, edge: HexEdge) -> HexCoord {
        HexCoord {
            q: (self.q + edge.spec_direction().q) as i32,
            r: (self.r + edge.spec_direction().r) as i32,
        }
    }

    /// The cell across the given edge.
    pub fn neighbor(self, edge: HexEdge) -> (c: HexCoord)
        requires
            i32::MIN < self.q < i32::MAX,
            i32::MIN < self.r < i32::MAX,
        ensures
            c == self.spec_neighbor(edge),
    {
        let d = edge.direction();
        HexCoord { q: self.q + d.q, r: self.r + d.r }
    }
}

/// One of the six edges of a flat-top hex cell.
#[derive(Debug, PartialEq, Eq, Structural, PartialOrd, Ord, Clone, Copy, Hash)]
pub enum HexEdge {
    TopCenter,
    TopRight,
    BottomRight,
    BottomCenter,
    BottomLeft,
    TopLeft,
}

impl HexEdge {
    /// The axial delta of the neighboring cell across this edge.
    pub open spec fn spec_direction(self) -> HexCoord {
        match self {
            HexEdge::TopCenter => HexCoord { q: 0i32, r: -1i32 },
            HexEdge::TopRight => HexCoord { q: 1i32, r: -1i32 },
            HexEdge::BottomRight => HexCoord { q: 1i32, r: 0i32 },
            HexEdge::BottomCenter => HexCoord { q: 0i32, r: 1i32 },
            HexEdge::BottomLeft => HexCoord { q: -1i32, r: 1i32 },
            HexEdge::TopLeft => HexCoord { q: -1i32, r: 0i32 },
        }
    }

    /// The axial delta of the neighboring cell across this edge.
    pub fn direction(&self) -> (d: HexCoord)
        ensures
            d == self.spec_direction(),
    {
        match self {
            HexEdge::TopCenter => HexCoord { q: 0, r: -1 },
            HexEdge::TopRight => HexCoord { q: 1, r: -1 },
            HexEdge::BottomRight => HexCoord { q: 1, r: 0 },
            HexEdge::BottomCenter => HexCoord { q: 0, r: 1 },
            HexEdge::BottomLeft => HexCoord { q: -1, r: 1 },
            HexEdge::TopLeft => HexCoord { q: -1, r: 0 },
        }
    }

    /// All six edges, in clockwise order starting at the top.
    pub fn get_array() -> (a: [HexEdge; 6])
        ensures
            a@.len() == 6,
            a@[0] == HexEdge::TopCenter,
            a@[1] == HexEdge::TopRight,
            a@[2] == HexEdge::BottomRight,
            a@[3] == HexEdge::BottomCenter,
            a@[4] == HexEdge::BottomLeft,
            a@[5] == HexEdge::TopLeft,
    {
        [
            HexEdge::TopCenter,
            HexEdge::TopRight,
            HexEdge::BottomRight,
            HexEdge::BottomCenter,
            HexEdge::BottomLeft,
            HexEdge::TopLeft,
        ]
    }
}

/// One of the six corners of a flat-top hex cell.
#[derive(Debug, PartialEq, Eq, Structural, PartialOrd, Ord, Clone, Copy, Hash)]
pub enum HexCorner {
    TopRight,
    MiddleRight,
    BottomRight,
    BottomLeft,
    MiddleLeft,
    TopLeft,
}

impl HexCorner {
    pub open spec fn spec_is_even(self) -> bool {
        match self {
            HexCorner::TopRight => true,
            HexCorner::MiddleRight => false,
            HexCorner::BottomRight => true,
            HexCorner::BottomLeft => false,
            HexCorner::MiddleLeft => true,
            HexCorner::TopLeft => false,
        }
    }

    /// Whether this corner sits at an even index of the clockwise corner order.
    pub fn is_even(&self) -> (b: bool)
        ensures
            b == self.spec_is_even(),
    {
        match self {
            HexCorner::TopRight => true,
            HexCorner::MiddleRight => false,
            HexCorner::BottomRight => true,
            HexCorner::BottomLeft => false,
            HexCorner::MiddleLeft => true,
            HexCorner::TopLeft => false,
        }
    }

    /// Exact planar offset of this corner from the cell center.
    pub open spec fn spec_to_xz(self) -> Planar {
        match self {
            HexCorner::TopRight => Planar { x_half: 1i64, z_rt3_half: -1i64 },
            HexCorner::MiddleRight => Planar { x_half: 2i64, z_rt3_half: 0i64 },
            HexCorner::BottomRight => Planar { x_half: 1i64, z_rt3_half: 1i64 },
            HexCorner::BottomLeft => Planar { x_half: -1i64, z_rt3_half: 1i64 },
            HexCorner::MiddleLeft => Planar { x_half: -2i64, z_rt3_half: 0i64 },
            HexCorner::TopLeft => Planar { x_half: -1i64, z_rt3_half: -1i64 },
        }
    }

    /// Exact planar offset of this corner from the cell center.
    pub fn to_xz(&self) -> (p: Planar)
        ensures
            p == self.spec_to_xz(),
    {
        match self {
            HexCorner::TopRight => Planar { x_half: 1, z_rt3_half: -1 },
            HexCorner::MiddleRight => Planar { x_half: 2, z_rt3_half: 0 },
            HexCorner::BottomRight => Planar { x_half: 1, z_rt3_half: 1 },
            HexCorner::BottomLeft => Planar { x_half: -1, z_rt3_half: 1 },
            HexCorner::MiddleLeft => Planar { x_half: -2, z_rt3_half: 0 },
            HexCorner::TopLeft => Planar { x_half: -1, z_rt3_half: -1 },
        }
    }

    /// The two edges whose far cells share this corner.
    pub open spec fn spec_neighbor_edges(self) -> (HexEdge, HexEdge) {
        match self {
            HexCorner::TopRight => (HexEdge::TopCenter, HexEdge::TopRight),
            HexCorner::MiddleRight => (HexEdge::TopRight, HexEdge::BottomRight),
            HexCorner::BottomRight => (HexEdge::BottomRight, HexEdge::BottomCenter),
            HexCorner::BottomLeft => (HexEdge::BottomCenter, HexEdge::BottomLeft),
            HexCorner::MiddleLeft => (HexEdge::BottomLeft, HexEdge::TopLeft),
            HexCorner::TopLeft => (HexEdge::TopLeft, HexEdge::TopCenter),
        }
    }

    /// The two edges whose far cells share this corner.
    pub fn neighbor_edges(&self) -> (a: [HexEdge; 2])
        ensures
            a@.len() == 2,
            a@[0] == self.spec_neighbor_edges().0,
            a@[1] == self.spec_neighbor_edges().1,
    {
        match self {
            HexCorner::TopRight => [HexEdge::TopCenter, HexEdge::TopRight],
            HexCorner::MiddleRight => [HexEdge::TopRight, HexEdge::BottomRight],
            HexCorner::BottomRight => [HexEdge::BottomRight, HexEdge::BottomCenter],
            HexCorner::BottomLeft => [HexEdge::BottomCenter, HexEdge::BottomLeft],
            HexCorner::MiddleLeft => [HexEdge::BottomLeft, HexEdge::TopLeft],
            HexCorner::TopLeft => [HexEdge::TopLeft, HexEdge::TopCenter],
        }
    }

    /// The name this same geometric corner carries on the neighboring cell
    /// across the corner's first bounding edge: the corner two places
    /// further in the clockwise corner order.
    pub open spec fn spec_from_first_neighbor(self) -> HexCorner {
        match self {
            HexCorner::TopRight => HexCorner::BottomRight,
            HexCorner::MiddleRight => HexCorner::BottomLeft,
            HexCorner::BottomRight => HexCorner::MiddleLeft,
            HexCorner::BottomLeft => HexCorner::TopLeft,
            HexCorner::MiddleLeft => HexCorner::TopRight,
            HexCorner::TopLeft => HexCorner::MiddleRight,
        }
    }

    /// The name this same geometric corner carries on the neighboring cell
    /// across the corner's second bounding edge: the corner four places
    /// further in the clockwise corner order.
    pub open spec fn spec_from_second_neighbor(self) -> HexCorner {
        match self {
            HexCorner::TopRight => HexCorner::MiddleLeft,
            HexCorner::MiddleRight => HexCorner::TopLeft,
            HexCorner::BottomRight => HexCorner::TopRight,
            HexCorner::BottomLeft => HexCorner::MiddleRight,
            HexCorner::MiddleLeft => HexCorner::BottomRight,
            HexCorner::TopLeft => HexCorner::BottomLeft,
        }
    }

    /// All six corners, in clockwise order starting at the top right.
    pub fn get_array() -> (a: [HexCorner; 6])
        ensures
            a@.len() == 6,
            a@[0] == HexCorner::TopRight,
            a@[1] == HexCorner::MiddleRight,
            a@[2] == HexCorner::BottomRight,
            a@[3] == HexCorner::BottomLeft,
            a@[4] == HexCorner::MiddleLeft,
            a@[5] == HexCorner::TopLeft,
    {
        [
            HexCorner::TopRight,
            HexCorner::MiddleRight,
            HexCorner::BottomRight,
            HexCorner::BottomLeft,
            HexCorner::MiddleLeft,
            HexCorner::TopLeft,
        ]
    }
}

/// Planar position of a cell center: x = q * 3/2 and z = q * sqrt(3)/2
/// + r * sqrt(3), expressed exactly in the scaled units of `Planar`.
pub open spec fn spec_axial_to_xz(pos: HexCoord) -> Planar {
    Planar { x_half: (3 * pos.q) as i64, z_rt3_half: (pos.q + 2 * pos.r) as i64 }
}

/// Converts axial hex coordinates to an exact planar position.
pub fn axial_to_xz(pos: &HexCoord) -> (p: Planar)
    ensures
        p == spec_axial_to_xz(*pos),
{
    Planar {
        x_half: 3 * (pos.q as i64),
        z_rt3_half: (pos.q as i64) + 2 * (pos.r as i64),
    }
}

/// Axial coordinates of the cell in column `col`, row `row` of an odd-q
/// vertical offset layout: q = col, r = row - (col + 1) / 2.
pub open spec fn spec_offset_to_axial(col: int, row: int) -> HexCoord {
    HexCoord { q: col as i32, r: (row - (col + 1) / 2) as i32 }
}

/// Converts odd-q vertical offset coordinates to axial coordinates.
pub fn offset_to_axial(col: i32, row: i32) -> (c: HexCoord)
    requires
        0 <= col,
        i32::MIN <= row - (col + 1) / 2,
    ensures
        c == spec_offset_to_axial(col as int, row as int),
        c.q == col,
        c.r == row - (col + 1) / 2,
{
    let shift: i32 = ((col as u32 + 1) / 2) as i32;
    HexCoord { q: col, r: row - shift }
}

/// Round trip of the coordinate conversions: sending offset coordinates
/// through `offset_to_axial` and then `axial_to_xz` lands exactly on the
/// closed-form flat-top layout position of that column and row, with no
/// error anywhere in the 200 x 200 region.
pub proof fn lemma_offset_planar_round_trip(col: int, row: int)
    requires
        0 <= col < 200,
        0 <= row < 200,
    ensures
        spec_axial_to_xz(spec_offset_to_axial(col, row)) == (Planar {
            x_half: (3 * col) as i64,
            z_rt3_half: (col + 2 * row - 2 * ((col + 1) / 2)) as i64,
        }),
{
}

} // verus!
