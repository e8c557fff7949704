//! Transient cursor state: the selected tool, the hovered cell, and the
//! hovered object instances. Input handling writes this state; the click
//! handlers read it to decide what a click means.

use vstd::prelude::*;
use crate::hex::HexCoord;
use crate::object::ObjectType;
use crate::surface::Surface;

verus! {

/// The tool a click acts with.
#[derive(Debug, PartialEq, Eq, Structural, Clone, Copy, Hash)]
pub enum Tool {
    /// No tool: clicks only select objects.
    Idle,
    /// An object is selected, by its instance id.
    Select(u32),
    /// Place the selected object type.
    Place,
    /// Lay or clear piste.
    Surface,
    /// Raise or lower terrain.
    Terrain,
    /// Remove the hovered object.
    Remove,
}

impl Default for Tool {
    /// No tool is active at first.
    fn default() -> (t: Tool)
        ensures
            t == Tool::Idle,
    {
        Tool::Idle
    }
}

/// Which object instances sit under the mouse.
#[derive(Debug, PartialEq, Eq, Clone)]
pub enum HoverObjects {
    Empty,
    Single(u32),
    /// Several objects are hovered; the second field is the index of the
    /// focused one.
    Many(Vec<u32>, usize),
}

/// Transient interaction state, read by the click handlers.
#[derive(Debug, Clone)]
pub struct Cursor {
    /// The cell currently under the mouse, if any.
    pub hover_cell: Option<HexCoord>,
    /// The object instances currently under the mouse.
    pub hover_objects: HoverObjects,
    pub tool: Tool,
    pub selected_surface: Option<Surface>,
    pub selected_object_type: Option<ObjectType>,
}

impl Cursor {
    /// The focused hovered object, if the focus is coherent.
    pub open spec fn spec_hover_object(self) -> Option<u32> {
        match self.hover_objects {
            HoverObjects::Empty => None,
            HoverObjects::Single(id) => Some(id),
            HoverObjects::Many(ids, focus) => if focus < ids@.len() {
                Some(ids@[focus as int])
            } else {
                None
            },
        }
    }

    /// Whether a structure type is selected for placement.
    pub open spec fn spec_has_structure_selected(self) -> bool {
        self.selected_object_type matches Some(ObjectType::Structure(_))
    }

    /// The selected structure type id; meaningful only while a structure
    /// type is selected.
    pub open spec fn spec_selected_structure_id(self) -> u16 {
        match self.selected_object_type {
            Some(ObjectType::Structure(type_id)) => type_id,
            _ => arbitrary(),
        }
    }

    /// A cursor with nothing hovered, nothing selected and no active tool.
    pub fn new() -> (c: Cursor)
        ensures
            c.hover_cell is None,
            c.hover_objects == HoverObjects::Empty,
            c.tool == Tool::Idle,
            c.selected_surface is None,
            c.selected_object_type is None,
    {
        Cursor {
            hover_cell: None,
            hover_objects: HoverObjects::Empty,
            tool: Tool::Idle,
            selected_surface: None,
            selected_object_type: None,
        }
    }

    /// Instance id of the currently hovered and focused object, which is
    /// not necessarily the selected one. A focus index out of range means
    /// nothing is focused.
    pub fn hover_object(&self) -> (r: Option<u32>)
        ensures
            r == self.spec_hover_object(),
    {
        match &self.hover_objects {
            HoverObjects::Empty => None,
            HoverObjects::Single(id) => Some(*id),
            HoverObjects::Many(ids, focus) => {
                if *focus < ids.len() {
                    Some(ids[*focus])
                } else {
                    None
                }
            },
        }
    }
}

} // verus!
