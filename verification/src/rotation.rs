//! Rotation of a structure on a flat-top hex cell, named by the corner it
//! points at. The corners are ordered clockwise:
//!
//! ```text
//!   /F-A\
//!  E     B
//!   \D-C/
//! ```

use vstd::prelude::*;
use crate::hex::{HexCoord, Planar};

verus! {

/// One of the six corner orientations of a flat-top hexagon.
#[derive(Debug, PartialEq, Eq, Structural, PartialOrd, Ord, Clone, Copy, Hash)]
pub enum Rotation {
    A,
    B,
    C,
    D,
    E,
    F,
}

impl Rotation {
    /// Position of this corner in the clockwise corner order, starting at 0.
    pub open spec fn spec_index(self) -> int {
        match self {
            Rotation::A => 0,
            Rotation::B => 1,
            Rotation::C => 2,
            Rotation::D => 3,
            Rotation::E => 4,
            Rotation::F => 5,
        }
    }

    /// The corner at the given position of the clockwise corner order.
    pub open spec fn spec_from_index(i: int) -> Rotation {
        if i == 0 {
            Rotation::A
        } else if i == 1 {
            Rotation::B
        } else if i == 2 {
            Rotation::C
        } else if i == 3 {
            Rotation::D
        } else if i == 4 {
            Rotation::E
        } else {
            Rotation::F
        }
    }

    /// Position of this corner in the clockwise corner order.
    pub fn index(&self) -> (i: usize)
        ensures
            i == self.spec_index(),
    {
        match self {
            Rotation::A => 0,
            Rotation::B => 1,
            Rotation::C => 2,
            Rotation::D => 3,
            Rotation::E => 4,
            Rotation::F => 5,
        }
    }

    /// The corner at position `value` of the corner order, wrapping past the
    /// end, so that any index names a corner.
    pub fn from_usize(value: usize) -> (r: Rotation)
        ensures
            r == Rotation::spec_from_index((value % 6) as int),
            r.spec_index() == value % 6,
    {
        let i: usize = value % 6;
        if i == 0 {
            Rotation::A
        } else if i == 1 {
            Rotation::B
        } else if i == 2 {
            Rotation::C
        } else if i == 3 {
            Rotation::D
        } else if i == 4 {
            Rotation::E
        } else {
            Rotation::F
        }
    }

    /// Whether this corner sits at an even position of the corner order.
    pub fn is_even(self) -> (b: bool)
        ensures
            b == (self.spec_index() % 2 == 0),
    {
        match self {
            Rotation::A => true,
            Rotation::B => false,
            Rotation::C => true,
            Rotation::D => false,
            Rotation::E => true,
            Rotation::F => false,
        }
    }

    /// Exact planar offset of this corner from the cell center, in the
    /// scaled units of `Planar`.
    pub open spec fn spec_corner_xz(self) -> Planar {
        match self {
            Rotation::A => Planar { x_half: 1i64, z_rt3_half: -1i64 },
            Rotation::B => Planar { x_half: 2i64, z_rt3_half: 0i64 },
            Rotation::C => Planar { x_half: 1i64, z_rt3_half: 1i64 },
            Rotation::D => Planar { x_half: -1i64, z_rt3_half: 1i64 },
            Rotation::E => Planar { x_half: -2i64, z_rt3_half: 0i64 },
            Rotation::F => Planar { x_half: -1i64, z_rt3_half: -1i64 },
        }
    }

    /// Exact planar offset of this corner from the cell center.
    pub fn corner_xz(&self) -> (p: Planar)
        ensures
            p == self.spec_corner_xz(),
    {
        match self {
            Rotation::A => Planar { x_half: 1, z_rt3_half: -1 },
            Rotation::B => Planar { x_half: 2, z_rt3_half: 0 },
            Rotation::C => Planar { x_half: 1, z_rt3_half: 1 },
            Rotation::D => Planar { x_half: -1, z_rt3_half: 1 },
            Rotation::E => Planar { x_half: -2, z_rt3_half: 0 },
            Rotation::F => Planar { x_half: -1, z_rt3_half: -1 },
        }
    }

    /// The next corner clockwise.
    pub fn corner_next(self) -> (r: Rotation)
        ensures
            r == Rotation::spec_from_index((self.spec_index() + 1) % 6),
            r.spec_index() == (self.spec_index() + 1) % 6,
    {
        Rotation::from_usize(self.index() + 1)
    }

    /// The previous corner clockwise, wrapping from the first corner back to
    /// the last.
    pub fn corner_last(self) -> (r: Rotation)
        ensures
            r == Rotation::spec_from_index((self.spec_index() + 5) % 6),
            r.spec_index() == (self.spec_index() + 5) % 6,
    {
        Rotation::from_usize(self.index() + 5)
    }

    /// Axial delta of the cell across the edge that ends at this corner,
    /// going clockwise.
    pub open spec fn spec_edge_last(self) -> HexCoord {
        match self {
            Rotation::A => HexCoord { q: 0i32, r: -1i32 },
            Rotation::B => HexCoord { q: 1i32, r: -1i32 },
            Rotation::C => HexCoord { q: 1i32, r: 0i32 },
            Rotation::D => HexCoord { q: 0i32, r: 1i32 },
            Rotation::E => HexCoord { q: -1i32, r: 1i32 },
            Rotation::F => HexCoord { q: -1i32, r: 0i32 },
        }
    }

    /// Axial delta of the cell across the edge that ends at this corner.
    pub fn edge_last(&self) -> (d: HexCoord)
        ensures
            d == self.spec_edge_last(),
    {
        match self {
            Rotation::A => HexCoord { q: 0, r: -1 },
            Rotation::B => HexCoord { q: 1, r: -1 },
            Rotation::C => HexCoord { q: 1, r: 0 },
            Rotation::D => HexCoord { q: 0, r: 1 },
            Rotation::E => HexCoord { q: -1, r: 1 },
            Rotation::F => HexCoord { q: -1, r: 0 },
        }
    }

    /// Axial delta of the cell across the edge that starts at this corner,
    /// going clockwise.
    pub fn edge_next(self) -> (d: HexCoord)
        ensures
            d == Rotation::spec_from_index((self.spec_index() + 1) % 6).spec_edge_last(),
    {
        self.corner_next().edge_last()
    }
}

impl Default for Rotation {
    /// The default orientation is the first corner.
    fn default() -> (r: Rotation)
        ensures
            r == Rotation::A,
    {
        Rotation::A
    }
}

} // verus!
