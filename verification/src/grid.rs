//! The grid model: per-cell heights and surfaces over a hex region, the
//! registry of placed objects, and the mutation and query operations the
//! interaction layer drives.
//!
//! Heights are whole units. Corner heights average up to three cells, so
//! they are returned in sixths of a unit, which keeps every value exact.

use vstd::prelude::*;
use crate::cellmap::CellMap;
use crate::hex::{
    axial_to_xz, offset_to_axial, spec_axial_to_xz, spec_offset_to_axial, HexCoord, HexCorner,
    Planar,
};
use crate::object::{ObjectInstance, StructureInstance};
use crate::registry::{
    ObjectRegistry, contains_id, get_id_spec, ids_at_spec, remove_id_spec,
};
use crate::surface::Surface;

verus! {

/// A raw terrain sample is below this many whole units when the generated
/// cell is covered by water.
pub const WATER_HEIGHT: i64 = -3;

/// Tunable terrain generation parameters, each nominally between 1 and 50.
#[derive(Debug, PartialEq, Eq, Structural, Clone, Copy, Hash)]
pub struct WorldGenSettings {
    /// Vertical scale of the noise layer.
    pub peak_height: u16,
    /// Horizontal scale of the noise layer; wider means gentler peaks.
    pub peak_width: u16,
    /// Magnitude of the linear gradient along the z axis.
    pub slope_height: u16,
}

impl Default for WorldGenSettings {
    fn default() -> (s: WorldGenSettings)
        ensures
            s.peak_height == 10,
            s.peak_width == 30,
            s.slope_height == 40,
    {
        WorldGenSettings { peak_height: 10, peak_width: 30, slope_height: 40 }
    }
}

/// One generated terrain sample for one cell.
#[derive(Debug, PartialEq, Eq, Structural, Clone, Copy, Hash)]
pub struct CellSample {
    /// The raw sampled elevation, rounded down to whole units. Negative
    /// values are kept: they decide water, while the stored cell height
    /// clamps at zero.
    pub floor_height: i64,
    /// Whether the decoration pass asked for a tree on this cell; it is
    /// honored only where the cell is not water.
    pub tree: bool,
}

/// Why a grid operation was refused. Every failure leaves the grid as it
/// was.
#[derive(Debug, PartialEq, Eq, Structural, Clone, Copy, Hash)]
pub enum GridError {
    /// The named cell is not part of the grid.
    UnknownCell,
    /// The cell already sits at height zero and cannot be lowered.
    HeightAtMinimum,
    /// The requested surface change is not one a player may make.
    InvalidSurfaceChange,
    /// The cell already holds a structure.
    CellOccupied,
    /// No object is filed under the given instance id.
    UnknownInstance,
    /// The tool needs a selection and none was made.
    NoSelection,
    /// The tool acts on a hovered object and nothing is hovered.
    NothingHovered,
}

/// Which downstream state a mutation made stale. The caller fans this out
/// to whatever refresh consumers it registered.
#[derive(Debug, PartialEq, Eq, Structural, Clone, Copy, Hash)]
pub struct Refresh {
    pub meshes: bool,
    pub materials: bool,
    pub structure_heights: bool,
    pub hover_indicator: bool,
}

impl Refresh {
    /// After a height edit everything visible must be rebuilt.
    pub open spec fn spec_terrain() -> Refresh {
        Refresh { meshes: true, materials: true, structure_heights: true, hover_indicator: true }
    }

    /// After a surface edit only materials change.
    pub open spec fn spec_surface() -> Refresh {
        Refresh { meshes: false, materials: true, structure_heights: false, hover_indicator: false }
    }

    pub fn terrain() -> (r: Refresh)
        ensures
            r == Refresh::spec_terrain(),
    {
        Refresh { meshes: true, materials: true, structure_heights: true, hover_indicator: true }
    }

    pub fn surface() -> (r: Refresh)
        ensures
            r == Refresh::spec_surface(),
    {
        Refresh { meshes: false, materials: true, structure_heights: false, hover_indicator: false }
    }
}

/// The height map with one cell raised by one unit.
pub open spec fn spec_raised(m: Map<HexCoord, u16>, pos: HexCoord) -> Map<HexCoord, u16> {
    m.insert(pos, (m[pos] + 1) as u16)
}

/// The height map with one cell lowered by one unit.
pub open spec fn spec_lowered(m: Map<HexCoord, u16>, pos: HexCoord) -> Map<HexCoord, u16> {
    m.insert(pos, (m[pos] - 1) as u16)
}

/// Raising a cell and lowering it again restores the height map exactly.
pub proof fn lemma_raise_lower_round_trip(m: Map<HexCoord, u16>, pos: HexCoord)
    requires
        m.dom().contains(pos),
        m[pos] < u16::MAX,
    ensures
        spec_lowered(spec_raised(m, pos), pos) == m,
{
    assert(spec_lowered(spec_raised(m, pos), pos) =~= m);
}

/// A structure placed on a free cell is immediately visible to occupancy
/// queries on that cell: its id becomes the last entry of the answer.
pub proof fn lemma_placed_structure_visible(
    s: Seq<(u32, ObjectInstance)>,
    id: u32,
    instance: StructureInstance,
)
    ensures
        ids_at_spec(s.push((id, ObjectInstance::Structure(instance))), instance.pos) == ids_at_spec(
            s,
            instance.pos,
        ).push(id),
{
    crate::registry::lemma_ids_at_push(s, instance.pos, id, ObjectInstance::Structure(instance));
}

/// Height of one corner of a cell, in sixths of a height unit: six times
/// the mean height of the cell and the one or two neighbors that share the
/// corner and exist in the grid.
pub open spec fn spec_corner_height(m: Map<HexCoord, u16>, pos: HexCoord, corner: HexCorner) -> int {
    let edges = corner.spec_neighbor_edges();
    let p1 = pos.spec_neighbor(edges.0);
    let p2 = pos.spec_neighbor(edges.1);
    let center = m[pos] as int;
    if m.dom().contains(p1) && m.dom().contains(p2) {
        2 * (center + m[p1] + m[p2])
    } else if m.dom().contains(p1) {
        3 * (center + m[p1])
    } else if m.dom().contains(p2) {
        3 * (center + m[p2])
    } else {
        6 * center
    }
}

/// The corner at the given position of the clockwise corner order.
pub open spec fn spec_corner_at(i: int) -> HexCorner {
    if i == 0 {
        HexCorner::TopRight
    } else if i == 1 {
        HexCorner::MiddleRight
    } else if i == 2 {
        HexCorner::BottomRight
    } else if i == 3 {
        HexCorner::BottomLeft
    } else if i == 4 {
        HexCorner::MiddleLeft
    } else {
        HexCorner::TopLeft
    }
}

/// The exact planar position of one corner of a cell: the cell center plus
/// the corner's offset, both in the scaled units of `Planar`.
pub open spec fn spec_corner_position(pos: HexCoord, corner: HexCorner) -> Planar {
    Planar {
        x_half: (spec_axial_to_xz(pos).x_half + corner.spec_to_xz().x_half) as i64,
        z_rt3_half: (spec_axial_to_xz(pos).z_rt3_half + corner.spec_to_xz().z_rt3_half) as i64,
    }
}

/// A corner height is always defined and bounded, whichever neighbors
/// exist: it stays between zero and six times the largest storable cell
/// height, so corner queries are safe on every boundary cell.
pub proof fn lemma_corner_height_in_range(m: Map<HexCoord, u16>, pos: HexCoord, corner: HexCorner)
    requires
        m.dom().contains(pos),
    ensures
        0 <= spec_corner_height(m, pos, corner) <= 6 * (u16::MAX as int),
{
}

/// Seamless interpolation: a cell and an existing neighbor across one of a
/// corner's two bounding edges compute the same height for that shared
/// corner, whichever of the surrounding cells exist, so per-cell meshes
/// built from corner heights meet exactly at their seams.
pub proof fn lemma_corner_height_seamless(m: Map<HexCoord, u16>, pos: HexCoord, corner: HexCorner)
    requires
        m.dom().contains(pos),
        i32::MIN + 2 <= pos.q <= i32::MAX - 2,
        i32::MIN + 2 <= pos.r <= i32::MAX - 2,
    ensures
        m.dom().contains(pos.spec_neighbor(corner.spec_neighbor_edges().0))
            ==> spec_corner_height(m, pos, corner) == spec_corner_height(
            m,
            pos.spec_neighbor(corner.spec_neighbor_edges().0),
            corner.spec_from_first_neighbor(),
        ),
        m.dom().contains(pos.spec_neighbor(corner.spec_neighbor_edges().1))
            ==> spec_corner_height(m, pos, corner) == spec_corner_height(
            m,
            pos.spec_neighbor(corner.spec_neighbor_edges().1),
            corner.spec_from_second_neighbor(),
        ),
{
    let n1 = pos.spec_neighbor(corner.spec_neighbor_edges().0);
    let n2 = pos.spec_neighbor(corner.spec_neighbor_edges().1);
    let c1 = corner.spec_from_first_neighbor();
    let c2 = corner.spec_from_second_neighbor();
    // Seen from either neighbor, the corner's surrounding cells are the
    // same three cells, only named from a different center.
    assert(n1.spec_neighbor(c1.spec_neighbor_edges().0) == n2);
    assert(n1.spec_neighbor(c1.spec_neighbor_edges().1) == pos);
    assert(n2.spec_neighbor(c2.spec_neighbor_edges().0) == pos);
    assert(n2.spec_neighbor(c2.spec_neighbor_edges().1) == n1);
}

/// The structure type id of the default decoration placed by generation.
pub const TREE_STRUCTURE_ID: u16 = 1;

/// Rows generated in one column: odd columns carry one extra row, which
/// avoids sharp corners along the staggered hex boundary.
pub open spec fn spec_rows_in_col(col: int, length: int) -> int {
    length + col % 2
}

/// Flat index of the first sample of a column, in the column-major sample
/// order of generation.
pub open spec fn spec_col_base(col: int, length: int) -> int {
    col * length + col / 2
}

/// Whether an axial coordinate lies in the generated region of the given
/// width and length.
pub open spec fn spec_region_contains(width: int, length: int, c: HexCoord) -> bool {
    &&& 0 <= c.q < width
    &&& 0 <= c.r + (c.q + 1) / 2 < spec_rows_in_col(c.q as int, length)
}

/// Flat sample index of an axial coordinate of the region.
pub open spec fn spec_sample_index(length: int, c: HexCoord) -> int {
    spec_col_base(c.q as int, length) + c.r + (c.q + 1) / 2
}

/// The cell height stored for a raw sample: whole units, clamped below at
/// zero and above at the largest storable height.
pub open spec fn spec_sample_height(s: CellSample) -> u16 {
    if s.floor_height < 0 {
        0u16
    } else if s.floor_height > u16::MAX {
        u16::MAX
    } else {
        s.floor_height as u16
    }
}

/// A sampled cell is water exactly when its raw elevation lies below the
/// water threshold.
pub open spec fn spec_sample_water(s: CellSample) -> bool {
    s.floor_height < WATER_HEIGHT
}

pub open spec fn spec_sample_surface(s: CellSample) -> Surface {
    if spec_sample_water(s) {
        Surface::Water
    } else {
        Surface::Normal
    }
}

/// A tree is planted where the decoration pass asked for one and the cell
/// is not water.
pub open spec fn spec_sample_tree(s: CellSample) -> bool {
    s.tree && !spec_sample_water(s)
}

/// A freshly placed structure object of the given type on a cell, with no
/// rotation.
pub open spec fn spec_structure_object(type_id: u16, pos: HexCoord) -> ObjectInstance {
    ObjectInstance::Structure(
        StructureInstance { structure_id: type_id, pos: pos, rotation: None },
    )
}

/// The default decoration object planted on a cell.
pub open spec fn spec_tree_object(pos: HexCoord) -> ObjectInstance {
    spec_structure_object(TREE_STRUCTURE_ID, pos)
}

/// The cells of one column, up to `rows`, that receive a tree, in row
/// order.
pub open spec fn spec_trees_in_col(
    col: int,
    rows: int,
    length: int,
    samples: Seq<CellSample>,
) -> Seq<HexCoord>
    decreases rows,
{
    if rows <= 0 {
        Seq::empty()
    } else if spec_sample_tree(samples[spec_col_base(col, length) + (rows - 1)]) {
        spec_trees_in_col(col, rows - 1, length, samples).push(
            spec_offset_to_axial(col, rows - 1),
        )
    } else {
        spec_trees_in_col(col, rows - 1, length, samples)
    }
}

/// The cells of the first `cols` whole columns that receive a tree, in
/// generation order.
pub open spec fn spec_trees_up_to_col(cols: int, length: int, samples: Seq<CellSample>) -> Seq<
    HexCoord,
>
    decreases cols,
{
    if cols <= 0 {
        Seq::empty()
    } else {
        spec_trees_up_to_col(cols - 1, length, samples) + spec_trees_in_col(
            cols - 1,
            spec_rows_in_col(cols - 1, length),
            length,
            samples,
        )
    }
}

/// Every cell of the region that receives a tree, in generation order.
pub open spec fn spec_tree_positions(width: int, length: int, samples: Seq<CellSample>) -> Seq<
    HexCoord,
> {
    spec_trees_up_to_col(width, length, samples)
}

proof fn lemma_col_base_step(col: int, length: int)
    requires
        col >= 0,
        length >= 0,
    ensures
        spec_col_base(col + 1, length) == spec_col_base(col, length) + spec_rows_in_col(
            col,
            length,
        ),
{
    assert((col + 1) * length == col * length + length) by (nonlinear_arith);
    assert(col == 2 * (col / 2) + col % 2);
    assert((col + 1) / 2 == col / 2 + col % 2);
}

proof fn lemma_col_base_monotone(a: int, b: int, length: int)
    requires
        0 <= a <= b,
        length >= 0,
    ensures
        spec_col_base(a, length) <= spec_col_base(b, length),
    decreases b - a,
{
    if a < b {
        lemma_col_base_monotone(a, b - 1, length);
        lemma_col_base_step(b - 1, length);
    }
}

/// The stored height of a raw sample: clamped below at zero and above at
/// the largest storable height.
fn sample_height(s: CellSample) -> (h: u16)
    ensures
        h == spec_sample_height(s),
{
    if s.floor_height < 0 {
        0
    } else if s.floor_height > u16::MAX as i64 {
        u16::MAX
    } else {
        s.floor_height as u16
    }
}

/// The grid model: the authoritative state of the terrain and of every
/// placed object.
pub struct Grid {
    heights: CellMap<u16>,
    surfaces: CellMap<Surface>,
    objects: ObjectRegistry,
    width: u16,
    length: u16,
    settings: WorldGenSettings,
}

impl Grid {
    /// The per-cell height field.
    pub closed spec fn height_map(self) -> Map<HexCoord, u16> {
        self.heights@
    }

    /// The per-cell surface field.
    pub closed spec fn surface_map(self) -> Map<HexCoord, Surface> {
        self.surfaces@
    }

    /// All placed objects with their instance ids, in insertion order.
    pub closed spec fn objects_seq(self) -> Seq<(u32, ObjectInstance)> {
        self.objects@
    }

    /// The id the registry will assign next.
    pub closed spec fn next_instance_id(self) -> u32 {
        self.objects.spec_next_id()
    }

    pub closed spec fn spec_width(self) -> u16 {
        self.width
    }

    pub closed spec fn spec_length(self) -> u16 {
        self.length
    }

    pub closed spec fn spec_settings(self) -> WorldGenSettings {
        self.settings
    }

    /// The grid's standing invariant: the component structures are well
    /// formed, and the height map and the surface map always hold exactly
    /// the same cells.
    pub closed spec fn wf(self) -> bool {
        &&& self.heights.wf()
        &&& self.surfaces.wf()
        &&& self.objects.wf()
        &&& self.heights@.dom() == self.surfaces@.dom()
    }

    /// The key-set law: in a well-formed grid the height map and the
    /// surface map describe exactly the same set of cells.
    pub proof fn lemma_height_surface_same_cells(&self)
        requires
            self.wf(),
        ensures
            self.height_map().dom() == self.surface_map().dom(),
    {
    }

    /// Every issued instance id is below the id counter, so no later
    /// insertion can reuse an id, even after removals.
    pub proof fn lemma_instance_ids_below_next(&self)
        requires
            self.wf(),
        ensures
            forall|i: int|
                0 <= i < self.objects_seq().len() ==> (#[trigger] self.objects_seq()[i].0)
                    < self.next_instance_id(),
    {
        self.objects.lemma_ids_below_next();
    }

    /// Instance ids appear in strictly increasing order of insertion.
    pub proof fn lemma_instance_ids_strictly_increasing(&self)
        requires
            self.wf(),
        ensures
            forall|i: int, j: int|
                0 <= i < j < self.objects_seq().len() ==> #[trigger] self.objects_seq()[i].0
                    < #[trigger] self.objects_seq()[j].0,
    {
        self.objects.lemma_ids_strictly_increasing();
    }

    /// An empty grid that records its generation parameters.
    fn empty(width: u16, length: u16, settings: WorldGenSettings) -> (g: Grid)
        ensures
            g.wf(),
            g.height_map() == Map::<HexCoord, u16>::empty(),
            g.surface_map() == Map::<HexCoord, Surface>::empty(),
            g.objects_seq() == Seq::<(u32, ObjectInstance)>::empty(),
            g.next_instance_id() == 0,
            g.spec_width() == width,
            g.spec_length() == length,
            g.spec_settings() == settings,
    {
        let g = Grid {
            heights: CellMap::new(),
            surfaces: CellMap::new(),
            objects: ObjectRegistry::new(),
            width,
            length,
            settings,
        };
        proof {
            assert(g.heights@.dom() =~= g.surfaces@.dom());
        }
        g
    }

    /// Generates a grid of the given width and length from one raw terrain
    /// sample per cell, in column-major order with the extra staggered row
    /// on odd columns. Cell heights clamp the samples at zero; cells whose
    /// raw sample lies below the water threshold become water; every other
    /// cell is normal ground, and receives the default tree decoration
    /// where its sample asked for one. Trees are registered in generation
    /// order with instance ids counted up from zero.
    pub fn new(width: u16, length: u16, settings: WorldGenSettings, samples: &Vec<CellSample>) -> (g:
        Grid)
        requires
            samples@.len() == (width as int) * (length as int) + (width as int) / 2,
        ensures
            g.wf(),
            g.spec_width() == width,
            g.spec_length() == length,
            g.spec_settings() == settings,
            forall|c: HexCoord|
                g.height_map().contains_key(c) <==> spec_region_contains(
                    width as int,
                    length as int,
                    c,
                ),
            forall|c: HexCoord|
                spec_region_contains(width as int, length as int, c) ==> {
                    &&& g.height_map()[c] == spec_sample_height(
                        samples@[spec_sample_index(length as int, c)],
                    )
                    &&& g.surface_map()[c] == spec_sample_surface(
                        samples@[spec_sample_index(length as int, c)],
                    )
                },
            g.objects_seq().len() == spec_tree_positions(
                width as int,
                length as int,
                samples@,
            ).len(),
            forall|i: int|
                0 <= i < g.objects_seq().len() ==> g.objects_seq()[i] == (
                    i as u32,
                    spec_tree_object(
                        spec_tree_positions(width as int, length as int, samples@)[i],
                    ),
                ),
            g.next_instance_id() == g.objects_seq().len(),
    {
        let mut g = Grid::empty(width, length, settings);
        let w: u32 = width as u32;
        let ghost l: int = length as int;
        proof {
            vstd::arithmetic::mul::lemma_mul_upper_bound(
                width as int,
                65535,
                length as int,
                65535,
            );
        }
        let mut k: usize = 0;
        let mut col: u32 = 0;
        while col < w
            invariant
                samples@.len() == (width as int) * (length as int) + (width as int) / 2,
                samples@.len() < u32::MAX,
                w == width,
                l == length,
                0 <= col <= w,
                k == spec_col_base(col as int, l),
                g.heights.wf(),
                g.surfaces.wf(),
                g.objects.wf(),
                g.heights@.dom() == g.surfaces@.dom(),
                g.width == width,
                g.length == length,
                g.settings == settings,
                forall|c: HexCoord|
                    g.heights@.contains_key(c) <==> spec_region_contains(col as int, l, c),
                forall|c: HexCoord|
                    spec_region_contains(col as int, l, c) ==> {
                        &&& g.heights@[c] == spec_sample_height(
                            samples@[spec_sample_index(l, c)],
                        )
                        &&& g.surfaces@[c] == spec_sample_surface(
                            samples@[spec_sample_index(l, c)],
                        )
                    },
                g.objects@.len() == spec_trees_up_to_col(col as int, l, samples@).len(),
                forall|i: int|
                    0 <= i < g.objects@.len() ==> g.objects@[i] == (
                        i as u32,
                        spec_tree_object(spec_trees_up_to_col(col as int, l, samples@)[i]),
                    ),
                g.objects.spec_next_id() == g.objects@.len(),
                g.objects@.len() <= k,
            decreases w - col,
        {
            let rows: u32 = length as u32 + (col % 2);
            proof {
                lemma_col_base_step(col as int, l);
                lemma_col_base_monotone(col as int + 1, w as int, l);
                assert forall|c: HexCoord| g.heights@.contains_key(c) implies {
                    &&& g.heights@[c] == spec_sample_height(samples@[spec_sample_index(l, c)])
                    &&& g.surfaces@[c] == spec_sample_surface(samples@[spec_sample_index(l, c)])
                } by {
                    assert(spec_region_contains(col as int, l, c));
                }
            }
            let mut row: u32 = 0;
            while row < rows
                invariant
                    samples@.len() == (width as int) * (length as int) + (width as int) / 2,
                    samples@.len() < u32::MAX,
                    w == width,
                    l == length,
                    0 <= col < w,
                    rows == spec_rows_in_col(col as int, l),
                    0 <= row <= rows,
                    k == spec_col_base(col as int, l) + row,
                    spec_col_base(col as int, l) + rows == spec_col_base(col as int + 1, l),
                    spec_col_base(col as int + 1, l) <= samples@.len(),
                    g.heights.wf(),
                    g.surfaces.wf(),
                    g.objects.wf(),
                    g.heights@.dom() == g.surfaces@.dom(),
                    g.width == width,
                    g.length == length,
                    g.settings == settings,
                    forall|c: HexCoord|
                        g.heights@.contains_key(c) <==> (spec_region_contains(col as int, l, c)
                            || (c.q == col && 0 <= c.r + (c.q + 1) / 2 < row)),
                    forall|c: HexCoord|
                        g.heights@.contains_key(c) ==> {
                            &&& g.heights@[c] == spec_sample_height(
                                samples@[spec_sample_index(l, c)],
                            )
                            &&& g.surfaces@[c] == spec_sample_surface(
                                samples@[spec_sample_index(l, c)],
                            )
                        },
                    g.objects@.len() == spec_trees_up_to_col(col as int, l, samples@).len()
                        + spec_trees_in_col(col as int, row as int, l, samples@).len(),
                    forall|i: int|
                        0 <= i < g.objects@.len() ==> g.objects@[i] == (
                            i as u32,
                            spec_tree_object(
                                (spec_trees_up_to_col(col as int, l, samples@)
                                    + spec_trees_in_col(col as int, row as int, l, samples@))[i],
                            ),
                        ),
                    g.objects.spec_next_id() == g.objects@.len(),
                    g.objects@.len() <= k,
                decreases rows - row,
            {
                let pos = offset_to_axial(col as i32, row as i32);
                let sample = samples[k];
                let h = sample_height(sample);
                let water = sample.floor_height < WATER_HEIGHT;
                proof {
                    assert(pos.q == col as i32);
                    assert(pos.r + (pos.q + 1) / 2 == row);
                    assert(!spec_region_contains(col as int, l, pos));
                    assert(!(pos.q == col && 0 <= pos.r + (pos.q + 1) / 2 < row));
                    assert(!g.heights@.contains_key(pos));
                    assert(spec_sample_index(l, pos) == k);
                }
                let ghost heights0 = g.heights@;
                let ghost trees0 = spec_trees_up_to_col(col as int, l, samples@)
                    + spec_trees_in_col(col as int, row as int, l, samples@);
                g.heights.insert(pos, h);
                g.surfaces.insert(
                    pos,
                    if water {
                        Surface::Water
                    } else {
                        Surface::Normal
                    },
                );
                if sample.tree && !water {
                    g.objects.push(ObjectInstance::Structure(StructureInstance::new(
                        TREE_STRUCTURE_ID,
                        pos,
                    )));
                }
                proof {
                    assert(g.heights@.dom() =~= g.surfaces@.dom());
                    assert forall|c: HexCoord|
                        g.heights@.contains_key(c) <==> (spec_region_contains(col as int, l, c) || (
                        c.q == col && 0 <= c.r + (c.q + 1) / 2 < row + 1)) by {
                        assert(heights0.contains_key(c) <==> (spec_region_contains(col as int, l, c)
                            || (c.q == col && 0 <= c.r + (c.q + 1) / 2 < row)));
                        assert(g.heights@.contains_key(c) == (heights0.contains_key(c) || c
                            == pos));
                        if c.q == col && 0 <= c.r + (c.q + 1) / 2 < row + 1 && !(c.r + (c.q + 1) / 2
                            < row) {
                            assert(c.r + (c.q + 1) / 2 == row);
                            assert(c.q == pos.q && c.r == pos.r);
                            assert(c == pos);
                        }
                    }
                    let trees1 = spec_trees_up_to_col(col as int, l, samples@)
                        + spec_trees_in_col(col as int, row as int + 1, l, samples@);
                    assert(spec_sample_tree(samples@[k as int]) == (sample.tree && !water));
                    if sample.tree && !water {
                        assert(spec_trees_in_col(col as int, row as int + 1, l, samples@)
                            == spec_trees_in_col(col as int, row as int, l, samples@).push(
                            spec_offset_to_axial(col as int, row as int),
                        ));
                        assert(trees1 =~= trees0.push(pos));
                    } else {
                        assert(spec_trees_in_col(col as int, row as int + 1, l, samples@)
                            == spec_trees_in_col(col as int, row as int, l, samples@));
                        assert(trees1 =~= trees0);
                    }
                }
                k = k + 1;
                row = row + 1;
            }
            proof {
                assert forall|c: HexCoord|
                    g.heights@.contains_key(c) <==> spec_region_contains(
                        col as int + 1,
                        l,
                        c,
                    ) by {
                    assert(g.heights@.contains_key(c) <==> (spec_region_contains(col as int, l, c)
                        || (c.q == col && 0 <= c.r + (c.q + 1) / 2 < rows)));
                    if c.q == col as i32 {
                        assert(spec_rows_in_col(c.q as int, l) == rows);
                    }
                }
                assert forall|c: HexCoord| spec_region_contains(col as int + 1, l, c) implies {
                    &&& g.heights@[c] == spec_sample_height(samples@[spec_sample_index(l, c)])
                    &&& g.surfaces@[c] == spec_sample_surface(samples@[spec_sample_index(l, c)])
                } by {
                    assert(g.heights@.contains_key(c));
                }
                assert(spec_trees_up_to_col(col as int + 1, l, samples@)
                    == spec_trees_up_to_col(col as int, l, samples@) + spec_trees_in_col(
                    col as int,
                    spec_rows_in_col(col as int, l),
                    l,
                    samples@,
                ));
            }
            col = col + 1;
        }
        g
    }

    pub fn width(&self) -> (w: u16)
        ensures
            w == self.spec_width(),
    {
        self.width
    }

    pub fn length(&self) -> (l: u16)
        ensures
            l == self.spec_length(),
    {
        self.length
    }

    pub fn settings(&self) -> (s: WorldGenSettings)
        ensures
            s == self.spec_settings(),
    {
        self.settings
    }

    /// Whether the grid holds the given cell.
    pub fn contains_cell(&self, pos: HexCoord) -> (b: bool)
        requires
            self.wf(),
        ensures
            b == self.height_map().contains_key(pos),
    {
        self.heights.contains_key(pos)
    }

    /// The stored height of a cell, if the cell exists.
    pub fn height_of(&self, pos: HexCoord) -> (r: Option<u16>)
        requires
            self.wf(),
        ensures
            r == (if self.height_map().contains_key(pos) {
                Some(self.height_map()[pos])
            } else {
                None::<u16>
            }),
    {
        self.heights.get(pos)
    }

    /// The surface of a cell, if the cell exists.
    pub fn surface_of(&self, pos: HexCoord) -> (r: Option<Surface>)
        requires
            self.wf(),
        ensures
            r == (if self.surface_map().contains_key(pos) {
                Some(self.surface_map()[pos])
            } else {
                None::<Surface>
            }),
    {
        self.surfaces.get(pos)
    }

    /// Every cell of the grid, each exactly once.
    pub fn cells(&self) -> (r: Vec<HexCoord>)
        requires
            self.wf(),
        ensures
            forall|pos: HexCoord| self.height_map().contains_key(pos) <==> r@.contains(pos),
            r@.no_duplicates(),
            r@.len() == self.height_map().dom().len(),
    {
        self.heights.keys()
    }

    /// How many cells the grid holds.
    pub fn cell_count(&self) -> (n: usize)
        requires
            self.wf(),
        ensures
            self.height_map().dom().finite(),
            n == self.height_map().dom().len(),
    {
        self.heights.len()
    }

    /// Raises a cell by one unit. Fails, changing nothing, when the cell
    /// does not exist; on success every downstream view of the terrain must
    /// be refreshed.
    pub fn raise(&mut self, pos: HexCoord) -> (r: Result<Refresh, GridError>)
        requires
            old(self).wf(),
            old(self).height_map().contains_key(pos) ==> old(self).height_map()[pos] < u16::MAX,
        ensures
            final(self).wf(),
            old(self).height_map().contains_key(pos) ==> {
                &&& r == Ok::<Refresh, GridError>(Refresh::spec_terrain())
                &&& final(self).height_map() == spec_raised(old(self).height_map(), pos)
            },
            !old(self).height_map().contains_key(pos) ==> {
                &&& r == Err::<Refresh, GridError>(GridError::UnknownCell)
                &&& final(self).height_map() == old(self).height_map()
            },
            final(self).surface_map() == old(self).surface_map(),
            final(self).objects_seq() == old(self).objects_seq(),
            final(self).next_instance_id() == old(self).next_instance_id(),
            final(self).spec_width() == old(self).spec_width(),
            final(self).spec_length() == old(self).spec_length(),
            final(self).spec_settings() == old(self).spec_settings(),
    {
        match self.heights.get(pos) {
            Some(h) => {
                self.heights.insert(pos, h + 1);
                proof {
                    assert(self.heights@.dom() =~= self.surfaces@.dom());
                }
                Ok(Refresh::terrain())
            },
            None => Err(GridError::UnknownCell),
        }
    }

    /// Lowers a cell by one unit. Fails, changing nothing, when the cell
    /// does not exist or already sits at height zero; on success every
    /// downstream view of the terrain must be refreshed.
    pub fn lower(&mut self, pos: HexCoord) -> (r: Result<Refresh, GridError>)
        requires
            old(self).wf(),
        ensures
            final(self).wf(),
            old(self).height_map().contains_key(pos) && old(self).height_map()[pos] > 0 ==> {
                &&& r == Ok::<Refresh, GridError>(Refresh::spec_terrain())
                &&& final(self).height_map() == spec_lowered(old(self).height_map(), pos)
            },
            old(self).height_map().contains_key(pos) && old(self).height_map()[pos] == 0 ==> {
                &&& r == Err::<Refresh, GridError>(GridError::HeightAtMinimum)
                &&& final(self).height_map() == old(self).height_map()
            },
            !old(self).height_map().contains_key(pos) ==> {
                &&& r == Err::<Refresh, GridError>(GridError::UnknownCell)
                &&& final(self).height_map() == old(self).height_map()
            },
            final(self).surface_map() == old(self).surface_map(),
            final(self).objects_seq() == old(self).objects_seq(),
            final(self).next_instance_id() == old(self).next_instance_id(),
            final(self).spec_width() == old(self).spec_width(),
            final(self).spec_length() == old(self).spec_length(),
            final(self).spec_settings() == old(self).spec_settings(),
    {
        match self.heights.get(pos) {
            Some(h) => {
                if h == 0 {
                    Err(GridError::HeightAtMinimum)
                } else {
                    self.heights.insert(pos, h - 1);
                    proof {
                        assert(self.heights@.dom() =~= self.surfaces@.dom());
                    }
                    Ok(Refresh::terrain())
                }
            },
            None => Err(GridError::UnknownCell),
        }
    }

    /// Changes a cell's surface. Only laying piste on normal ground or
    /// clearing piste back to normal is allowed; anything else fails and
    /// changes nothing. On success the cell's material must be refreshed.
    pub fn set_surface(&mut self, pos: HexCoord, desired: Surface) -> (r: Result<
        Refresh,
        GridError,
    >)
        requires
            old(self).wf(),
        ensures
            final(self).wf(),
            !old(self).surface_map().contains_key(pos) ==> {
                &&& r == Err::<Refresh, GridError>(GridError::UnknownCell)
                &&& final(self).surface_map() == old(self).surface_map()
            },
            old(self).surface_map().contains_key(pos) && old(self).surface_map()[pos].spec_change_allowed(desired) ==> {
                &&& r == Ok::<Refresh, GridError>(Refresh::spec_surface())
                &&& final(self).surface_map() == old(self).surface_map().insert(pos, desired)
            },
            old(self).surface_map().contains_key(pos) && !old(self).surface_map()[pos].spec_change_allowed(desired) ==> {
                &&& r == Err::<Refresh, GridError>(GridError::InvalidSurfaceChange)
                &&& final(self).surface_map() == old(self).surface_map()
            },
            final(self).height_map() == old(self).height_map(),
            final(self).objects_seq() == old(self).objects_seq(),
            final(self).next_instance_id() == old(self).next_instance_id(),
            final(self).spec_width() == old(self).spec_width(),
            final(self).spec_length() == old(self).spec_length(),
            final(self).spec_settings() == old(self).spec_settings(),
    {
        match self.surfaces.get(pos) {
            Some(current) => {
                if current.change_allowed(desired) {
                    self.surfaces.insert(pos, desired);
                    proof {
                        assert(self.heights@.dom() =~= self.surfaces@.dom());
                    }
                    Ok(Refresh::surface())
                } else {
                    Err(GridError::InvalidSurfaceChange)
                }
            },
            None => Err(GridError::UnknownCell),
        }
    }

    /// Adds an object to the registry and returns its new instance id,
    /// which is strictly above every id issued before. Never fails.
    pub fn push_object(&mut self, object: ObjectInstance) -> (id: u32)
        requires
            old(self).wf(),
            old(self).next_instance_id() < u32::MAX,
        ensures
            final(self).wf(),
            id == old(self).next_instance_id(),
            final(self).objects_seq() == old(self).objects_seq().push((id, object)),
            final(self).next_instance_id() == id + 1,
            forall|i: int|
                0 <= i < old(self).objects_seq().len() ==> (#[trigger] old(self).objects_seq()[i].0)
                    < id,
            final(self).height_map() == old(self).height_map(),
            final(self).surface_map() == old(self).surface_map(),
            final(self).spec_width() == old(self).spec_width(),
            final(self).spec_length() == old(self).spec_length(),
            final(self).spec_settings() == old(self).spec_settings(),
    {
        self.objects.push(object)
    }

    /// Takes the object filed under `instance_id` out of the registry and
    /// hands it back; fails, changing nothing, when the id is unknown. The
    /// freed id is never issued again.
    pub fn remove_object(&mut self, instance_id: u32) -> (r: Result<ObjectInstance, GridError>)
        requires
            old(self).wf(),
        ensures
            final(self).wf(),
            final(self).objects_seq() == remove_id_spec(old(self).objects_seq(), instance_id),
            final(self).next_instance_id() == old(self).next_instance_id(),
            contains_id(old(self).objects_seq(), instance_id) ==> (r matches Ok(object)
                && get_id_spec(old(self).objects_seq(), instance_id) == Some(object)),
            !contains_id(old(self).objects_seq(), instance_id) ==> r == Err::<
                ObjectInstance,
                GridError,
            >(GridError::UnknownInstance),
            final(self).height_map() == old(self).height_map(),
            final(self).surface_map() == old(self).surface_map(),
            final(self).spec_width() == old(self).spec_width(),
            final(self).spec_length() == old(self).spec_length(),
            final(self).spec_settings() == old(self).spec_settings(),
    {
        match self.objects.remove(instance_id) {
            Some(object) => Ok(object),
            None => Err(GridError::UnknownInstance),
        }
    }

    /// A borrow of the object filed under `instance_id`, if it exists.
    pub fn get_object(&self, instance_id: u32) -> (r: Option<&ObjectInstance>)
        requires
            self.wf(),
        ensures
            match r {
                Some(object) => get_id_spec(self.objects_seq(), instance_id) == Some(*object),
                None => !contains_id(self.objects_seq(), instance_id),
            },
    {
        self.objects.get(instance_id)
    }

    /// The instance ids of all objects that occupy `pos`, in increasing id
    /// order, or nothing when the cell is free.
    pub fn get_cell_objects(&self, pos: HexCoord) -> (r: Option<Vec<u32>>)
        requires
            self.wf(),
        ensures
            ids_at_spec(self.objects_seq(), pos).len() == 0 ==> r is None,
            ids_at_spec(self.objects_seq(), pos).len() > 0 ==> (r matches Some(v) && v@
                == ids_at_spec(self.objects_seq(), pos)),
    {
        let results = self.objects.ids_at(pos);
        if results.len() == 0 {
            None
        } else {
            Some(results)
        }
    }

    /// The six corner vertices of a cell's top face, in the clockwise
    /// corner order: each corner's exact planar position (the cell center
    /// plus the corner offset, in scaled units) with its interpolated
    /// height in sixths of a unit. Adjacent cells compute the same height
    /// for a shared corner, so a mesh built from these vertices is
    /// seamless.
    pub fn corner_vertices(&self, pos: HexCoord) -> (r: Vec<(Planar, u32)>)
        requires
            self.wf(),
            self.height_map().contains_key(pos),
            i32::MIN < pos.q < i32::MAX,
            i32::MIN < pos.r < i32::MAX,
        ensures
            r@.len() == 6,
            forall|i: int|
                0 <= i < 6 ==> #[trigger] r@[i] == (
                    spec_corner_position(pos, spec_corner_at(i)),
                    spec_corner_height(self.height_map(), pos, spec_corner_at(i)) as u32,
                ),
    {
        let center = axial_to_xz(&pos);
        let corners = HexCorner::get_array();
        let mut r: Vec<(Planar, u32)> = Vec::new();
        let mut i: usize = 0;
        while i < 6
            invariant
                self.wf(),
                self.height_map().contains_key(pos),
                i32::MIN < pos.q < i32::MAX,
                i32::MIN < pos.r < i32::MAX,
                center == spec_axial_to_xz(pos),
                i <= 6,
                corners@.len() == 6,
                forall|j: int| 0 <= j < 6 ==> corners@[j] == spec_corner_at(j),
                r@.len() == i,
                forall|j: int|
                    0 <= j < i ==> #[trigger] r@[j] == (
                        spec_corner_position(pos, spec_corner_at(j)),
                        spec_corner_height(self.height_map(), pos, spec_corner_at(j)) as u32,
                    ),
            decreases 6 - i,
        {
            let corner = corners[i];
            let offset = corner.to_xz();
            let vertex = Planar {
                x_half: center.x_half + offset.x_half,
                z_rt3_half: center.z_rt3_half + offset.z_rt3_half,
            };
            let height = self.corner_height(pos, corner);
            r.push((vertex, height));
            i += 1;
        }
        r
    }

    /// Places a structure, but only on a cell with no occupying structure;
    /// a cell that already holds one refuses the placement and nothing
    /// changes. On success the new instance id is returned and the new
    /// structure is immediately visible to occupancy queries.
    pub fn place_structure(&mut self, instance: StructureInstance) -> (r: Result<u32, GridError>)
        requires
            old(self).wf(),
            old(self).next_instance_id() < u32::MAX,
        ensures
            final(self).wf(),
            ids_at_spec(old(self).objects_seq(), instance.pos).len() > 0 ==> {
                &&& r == Err::<u32, GridError>(GridError::CellOccupied)
                &&& final(self).objects_seq() == old(self).objects_seq()
                &&& final(self).next_instance_id() == old(self).next_instance_id()
            },
            ids_at_spec(old(self).objects_seq(), instance.pos).len() == 0 ==> {
                &&& r == Ok::<u32, GridError>(old(self).next_instance_id())
                &&& final(self).objects_seq() == old(self).objects_seq().push(
                    (old(self).next_instance_id(), ObjectInstance::Structure(instance)),
                )
                &&& final(self).next_instance_id() == old(self).next_instance_id() + 1
            },
            final(self).height_map() == old(self).height_map(),
            final(self).surface_map() == old(self).surface_map(),
            final(self).spec_width() == old(self).spec_width(),
            final(self).spec_length() == old(self).spec_length(),
            final(self).spec_settings() == old(self).spec_settings(),
    {
        match self.get_cell_objects(instance.pos) {
            Some(_) => Err(GridError::CellOccupied),
            None => Ok(self.push_object(ObjectInstance::Structure(instance))),
        }
    }

    /// Height of one corner of a cell, in sixths of a unit: six times the
    /// mean height of the cell and its one or two existing neighbors that
    /// share the corner. Missing neighbors at the grid boundary are simply
    /// left out of the mean, so the query is safe on every cell.
    pub fn corner_height(&self, pos: HexCoord, corner: HexCorner) -> (h: u32)
        requires
            self.wf(),
            self.height_map().contains_key(pos),
            i32::MIN < pos.q < i32::MAX,
            i32::MIN < pos.r < i32::MAX,
        ensures
            h == spec_corner_height(self.height_map(), pos, corner),
    {
        let edges = corner.neighbor_edges();
        let p1 = pos.neighbor(edges[0]);
        let p2 = pos.neighbor(edges[1]);
        let center = self.heights.get(pos).unwrap() as u32;
        match (self.heights.get(p1), self.heights.get(p2)) {
            (Some(h1), Some(h2)) => 2 * (center + h1 as u32 + h2 as u32),
            (Some(h1), None) => 3 * (center + h1 as u32),
            (None, Some(h2)) => 3 * (center + h2 as u32),
            (None, None) => 6 * center,
        }
    }
}

} // verus!

