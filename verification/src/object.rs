//! Placed objects: typed structure instances, composite lifts, and the
//! identifiers the grid's registry assigns to them.

use vstd::prelude::*;
use crate::hex::HexCoord;
use crate::rotation::Rotation;

verus! {

/// A typed handle for an instance identifier issued by the object registry.
#[derive(Debug, PartialEq, Eq, Structural, PartialOrd, Ord, Clone, Copy, Hash)]
pub struct ObjectInstanceId(pub u32);

/// The kind of object a placement tool can select.
#[derive(Debug, PartialEq, Eq, Structural, Clone, Copy, Hash)]
pub enum ObjectType {
    /// A structure, by its structure type id.
    Structure(u16),
    Lift,
}

/// A catalog entry describing one kind of placeable structure.
#[derive(Debug, PartialEq, Eq, Clone)]
pub struct StructureType {
    pub id: u16,
    pub name: String,
}

impl StructureType {
    /// Builds a catalog entry keyed by its own id, ready for a catalog map.
    pub fn new(id: u16, name: String) -> (r: (u16, StructureType))
        ensures
            r.0 == id,
            r.1.id == id,
            r.1.name == name,
    {
        (id, StructureType { id, name })
    }
}

/// The fixed catalog of placeable structure types, loaded once at startup:
/// the generation-time tree decoration and two placeholder props. Each
/// entry is keyed by its own id.
pub fn structure_catalog() -> (r: Vec<(u16, StructureType)>)
    ensures
        r@.len() == 3,
        r@[0].0 == crate::grid::TREE_STRUCTURE_ID,
        r@[0].1.id == crate::grid::TREE_STRUCTURE_ID,
        r@[0].1.name@ == "Tree"@,
        r@[1].0 == 111 && r@[1].1.id == 111 && r@[1].1.name@ == "Red Box"@,
        r@[2].0 == 222 && r@[2].1.id == 222 && r@[2].1.name@ == "Blue Sphere"@,
{
    let mut r: Vec<(u16, StructureType)> = Vec::new();
    r.push(StructureType::new(crate::grid::TREE_STRUCTURE_ID, "Tree".to_string()));
    r.push(StructureType::new(111, "Red Box".to_string()));
    r.push(StructureType::new(222, "Blue Sphere".to_string()));
    r
}

/// One placed structure: its catalog type, the cell it stands on, and an
/// optional orientation.
#[derive(Debug, PartialEq, Eq, Clone, Copy)]
pub struct StructureInstance {
    pub structure_id: u16,
    pub pos: HexCoord,
    pub rotation: Option<Rotation>,
}

impl StructureInstance {
    pub fn new(structure_id: u16, pos: HexCoord) -> (s: StructureInstance)
        ensures
            s.structure_id == structure_id,
            s.pos == pos,
            s.rotation is None,
    {
        StructureInstance { structure_id, pos, rotation: None }
    }
}

/// The role of one node of a lift.
#[derive(Debug, PartialEq, Eq, Structural, PartialOrd, Ord, Clone, Copy, Hash)]
pub enum LiftNode {
    Station,
    Pillar,
}

/// A lift: an ordered run of station and pillar nodes, each anchored at a
/// structure instance.
#[derive(Debug, PartialEq, Eq, Clone)]
pub struct LiftInstance {
    pub nodes: Vec<(LiftNode, StructureInstance)>,
}

/// A placed object owned by the grid's registry.
#[derive(Debug, PartialEq, Eq, Clone)]
pub enum ObjectInstance {
    Structure(StructureInstance),
    Lift(LiftInstance),
}

impl ObjectInstance {
    /// Whether this object occupies the given cell. Only structures are
    /// matched by exact position; lift nodes are not yet counted as
    /// occupants, so composite objects stay invisible to occupancy queries.
    pub open spec fn spec_occupies(self, pos: HexCoord) -> bool {
        match self {
            ObjectInstance::Structure(s) => s.pos == pos,
            ObjectInstance::Lift(_) => false,
        }
    }

    /// Whether this object occupies the given cell.
    pub fn occupies(&self, pos: HexCoord) -> (b: bool)
        ensures
            b == self.spec_occupies(pos),
    {
        match self {
            ObjectInstance::Structure(s) => s.pos == pos,
            ObjectInstance::Lift(_) => false,
        }
    }
}

} // verus!
