//! Click and hover handling: the pure decision layer between input events
//! and the grid model. Each handler takes the current tool state and one
//! event, applies at most one grid mutation, and reports what changed so
//! the caller can fan out the needed refreshes.

use vstd::prelude::*;
use crate::cursor::{Cursor, HoverObjects, Tool};
use crate::grid::{spec_lowered, spec_raised, Grid, GridError, Refresh};
use crate::hex::HexCoord;
use crate::object::{ObjectType, StructureInstance};
use crate::registry::{contains_id, ids_at_spec, remove_id_spec};
use crate::surface::Surface;

verus! {

/// Which mouse button a click event carries.
#[derive(Debug, PartialEq, Eq, Structural, Clone, Copy, Hash)]
pub enum ClickButton {
    Primary,
    Secondary,
}

/// What a cell click did.
#[derive(Debug, PartialEq, Eq, Structural, Clone, Copy, Hash)]
pub enum ClickOutcome {
    /// The grid changed; the carried set says what must be refreshed.
    Changed(Refresh),
    /// A structure was placed, with its new instance id.
    Placed(u32),
    /// The active tool does not act on cell clicks with this button.
    Ignored,
}

/// What an object click did.
#[derive(Debug, PartialEq, Eq, Structural, Clone, Copy, Hash)]
pub enum ObjectClickOutcome {
    /// The hovered object became the selection.
    Selected(u32),
    /// The hovered object was removed from the registry.
    Removed(u32),
    /// The active tool does not act on object clicks with this button.
    Ignored,
}

/// How one placed object's outline should be drawn, given the current
/// cursor state.
#[derive(Debug, PartialEq, Eq, Structural, Clone, Copy, Hash)]
pub enum OutlineState {
    /// No outline.
    Hidden,
    /// The object is the current selection.
    Selected,
    /// The object is hovered and focused.
    Focused,
    /// The object is hovered but another hovered object has the focus.
    Hovered,
}

/// The outline of an object in a hover list: the first entry matching the
/// object decides, and it is focused exactly when it sits at the focus
/// index.
pub open spec fn spec_hover_outline(ids: Seq<u32>, focus: int, instance_id: u32) -> OutlineState
    decreases ids.len(),
{
    if ids.len() == 0 {
        OutlineState::Hidden
    } else if ids.first() == instance_id {
        if focus == 0 {
            OutlineState::Focused
        } else {
            OutlineState::Hovered
        }
    } else {
        spec_hover_outline(ids.drop_first(), focus - 1, instance_id)
    }
}

/// How one object's outline should be drawn: the selected object always
/// shows as selected; otherwise a hovered object shows as focused or
/// merely hovered, and anything else shows no outline.
pub open spec fn spec_outline_state(c: Cursor, instance_id: u32) -> OutlineState {
    if c.tool == Tool::Select(instance_id) {
        OutlineState::Selected
    } else {
        match c.hover_objects {
            HoverObjects::Empty => OutlineState::Hidden,
            HoverObjects::Single(id) => if id == instance_id {
                OutlineState::Focused
            } else {
                OutlineState::Hidden
            },
            HoverObjects::Many(ids, focus) => spec_hover_outline(
                ids@,
                focus as int,
                instance_id,
            ),
        }
    }
}

/// Decides how the outline of one placed object is drawn from the cursor
/// state alone, so the render layer only has to map each state to a color.
pub fn outline_state(cursor: &Cursor, instance_id: u32) -> (s: OutlineState)
    ensures
        s == spec_outline_state(*cursor, instance_id),
{
    if cursor.tool == Tool::Select(instance_id) {
        return OutlineState::Selected;
    }
    match &cursor.hover_objects {
        HoverObjects::Empty => OutlineState::Hidden,
        HoverObjects::Single(id) => {
            if *id == instance_id {
                OutlineState::Focused
            } else {
                OutlineState::Hidden
            }
        },
        HoverObjects::Many(ids, focus) => {
            let n = ids.len();
            let mut i: usize = 0;
            proof {
                assert(ids@.skip(0) =~= ids@);
            }
            while i < n
                invariant
                    n == ids@.len(),
                    i <= n,
                    spec_outline_state(*cursor, instance_id) == spec_hover_outline(
                        ids@,
                        *focus as int,
                        instance_id,
                    ),
                    spec_hover_outline(ids@, *focus as int, instance_id) == spec_hover_outline(
                        ids@.skip(i as int),
                        *focus - i,
                        instance_id,
                    ),
                decreases n - i,
            {
                proof {
                    assert(ids@.skip(i as int).first() == ids@[i as int]);
                    assert(ids@.skip(i as int).drop_first() =~= ids@.skip(i as int + 1));
                }
                if ids[i] == instance_id {
                    proof {
                        assert(spec_hover_outline(ids@.skip(i as int), *focus - i, instance_id)
                            == (if *focus - i == 0 {
                            OutlineState::Focused
                        } else {
                            OutlineState::Hovered
                        }));
                        assert(spec_outline_state(*cursor, instance_id) == spec_hover_outline(
                            ids@,
                            *focus as int,
                            instance_id,
                        ));
                    }
                    if i == *focus {
                        return OutlineState::Focused;
                    } else {
                        return OutlineState::Hovered;
                    }
                }
                i += 1;
            }
            OutlineState::Hidden
        },
    }
}

/// The mouse entered a cell: remember it as the hovered cell, so long as
/// the cell exists; an unknown cell is reported and nothing is remembered.
pub fn handle_hover_start(cursor: &mut Cursor, grid: &Grid, pos: HexCoord) -> (r: Result<
    (),
    GridError,
>)
    requires
        grid.wf(),
    ensures
        grid.height_map().contains_key(pos) ==> {
            &&& r == Ok::<(), GridError>(())
            &&& final(cursor).hover_cell == Some(pos)
        },
        !grid.height_map().contains_key(pos) ==> {
            &&& r == Err::<(), GridError>(GridError::UnknownCell)
            &&& final(cursor).hover_cell == old(cursor).hover_cell
        },
        final(cursor).hover_objects == old(cursor).hover_objects,
        final(cursor).tool == old(cursor).tool,
        final(cursor).selected_surface == old(cursor).selected_surface,
        final(cursor).selected_object_type == old(cursor).selected_object_type,
{
    if grid.height_of(pos).is_some() {
        cursor.hover_cell = Some(pos);
        Ok(())
    } else {
        Err(GridError::UnknownCell)
    }
}

/// The mouse left a cell: forget the hovered cell, but only if it is still
/// the one being left.
pub fn handle_hover_end(cursor: &mut Cursor, pos: HexCoord)
    ensures
        final(cursor).hover_cell == (if old(cursor).hover_cell == Some(pos) {
            None::<HexCoord>
        } else {
            old(cursor).hover_cell
        }),
        final(cursor).hover_objects == old(cursor).hover_objects,
        final(cursor).tool == old(cursor).tool,
        final(cursor).selected_surface == old(cursor).selected_surface,
        final(cursor).selected_object_type == old(cursor).selected_object_type,
{
    let clear = match cursor.hover_cell {
        Some(current) => current == pos,
        None => false,
    };
    if clear {
        cursor.hover_cell = None;
    }
}

/// A click on a cell, dispatched by the active tool: the terrain tool
/// raises or lowers the cell, the surface tool lays or clears piste, the
/// place tool places the selected structure type on a free cell, and any
/// other tool ignores the click. Failures change nothing.
pub fn handle_cell_click(
    grid: &mut Grid,
    cursor: &Cursor,
    pos: HexCoord,
    button: ClickButton,
) -> (r: Result<ClickOutcome, GridError>)
    requires
        old(grid).wf(),
        cursor.tool == Tool::Terrain && button == ClickButton::Primary && old(
            grid,
        ).height_map().contains_key(pos) ==> old(grid).height_map()[pos] < u16::MAX,
        cursor.tool == Tool::Place ==> old(grid).next_instance_id() < u32::MAX,
    ensures
        final(grid).wf(),
        cursor.tool == Tool::Terrain && button == ClickButton::Primary ==> {
            &&& old(grid).height_map().contains_key(pos) ==> {
                &&& r == Ok::<ClickOutcome, GridError>(
                    ClickOutcome::Changed(Refresh::spec_terrain()),
                )
                &&& final(grid).height_map() == spec_raised(old(grid).height_map(), pos)
            }
            &&& !old(grid).height_map().contains_key(pos) ==> {
                &&& r == Err::<ClickOutcome, GridError>(GridError::UnknownCell)
                &&& final(grid).height_map() == old(grid).height_map()
            }
            &&& final(grid).surface_map() == old(grid).surface_map()
            &&& final(grid).objects_seq() == old(grid).objects_seq()
        },
        cursor.tool == Tool::Terrain && button == ClickButton::Secondary ==> {
            &&& old(grid).height_map().contains_key(pos) && old(grid).height_map()[pos] > 0 ==> {
                &&& r == Ok::<ClickOutcome, GridError>(
                    ClickOutcome::Changed(Refresh::spec_terrain()),
                )
                &&& final(grid).height_map() == spec_lowered(old(grid).height_map(), pos)
            }
            &&& old(grid).height_map().contains_key(pos) && old(grid).height_map()[pos] == 0 ==> {
                &&& r == Err::<ClickOutcome, GridError>(GridError::HeightAtMinimum)
                &&& final(grid).height_map() == old(grid).height_map()
            }
            &&& !old(grid).height_map().contains_key(pos) ==> {
                &&& r == Err::<ClickOutcome, GridError>(GridError::UnknownCell)
                &&& final(grid).height_map() == old(grid).height_map()
            }
            &&& final(grid).surface_map() == old(grid).surface_map()
            &&& final(grid).objects_seq() == old(grid).objects_seq()
        },
        cursor.tool == Tool::Surface && button == ClickButton::Primary ==> spec_surface_click(
            *old(grid),
            *final(grid),
            pos,
            Surface::Piste,
            r,
        ),
        cursor.tool == Tool::Surface && button == ClickButton::Secondary ==> spec_surface_click(
            *old(grid),
            *final(grid),
            pos,
            Surface::Normal,
            r,
        ),
        cursor.tool == Tool::Place && button == ClickButton::Primary ==> {
            &&& !old(grid).height_map().contains_key(pos) ==> {
                &&& r == Err::<ClickOutcome, GridError>(GridError::UnknownCell)
                &&& final(grid).objects_seq() == old(grid).objects_seq()
            }
            &&& old(grid).height_map().contains_key(pos) && !cursor.spec_has_structure_selected()
                ==> {
                &&& r == Err::<ClickOutcome, GridError>(GridError::NoSelection)
                &&& final(grid).objects_seq() == old(grid).objects_seq()
            }
            &&& old(grid).height_map().contains_key(pos) && cursor.spec_has_structure_selected()
                ==> {
                &&& ids_at_spec(old(grid).objects_seq(), pos).len() > 0 ==> {
                    &&& r == Err::<ClickOutcome, GridError>(GridError::CellOccupied)
                    &&& final(grid).objects_seq() == old(grid).objects_seq()
                }
                &&& ids_at_spec(old(grid).objects_seq(), pos).len() == 0 ==> {
                    &&& r == Ok::<ClickOutcome, GridError>(
                        ClickOutcome::Placed(old(grid).next_instance_id()),
                    )
                    &&& final(grid).objects_seq() == old(grid).objects_seq().push(
                        (
                            old(grid).next_instance_id(),
                            crate::grid::spec_structure_object(
                                cursor.spec_selected_structure_id(),
                                pos,
                            ),
                        ),
                    )
                }
            }
            &&& final(grid).height_map() == old(grid).height_map()
            &&& final(grid).surface_map() == old(grid).surface_map()
        },
        !(cursor.tool == Tool::Terrain || cursor.tool == Tool::Surface || (cursor.tool
            == Tool::Place && button == ClickButton::Primary)) ==> {
            &&& r == Ok::<ClickOutcome, GridError>(ClickOutcome::Ignored)
            &&& *final(grid) == *old(grid)
        },
        cursor.tool == Tool::Place && button == ClickButton::Secondary ==> {
            &&& r == Ok::<ClickOutcome, GridError>(ClickOutcome::Ignored)
            &&& *final(grid) == *old(grid)
        },
{
    match cursor.tool {
        Tool::Terrain => {
            match button {
                ClickButton::Primary => {
                    match grid.raise(pos) {
                        Ok(refresh) => Ok(ClickOutcome::Changed(refresh)),
                        Err(e) => Err(e),
                    }
                },
                ClickButton::Secondary => {
                    match grid.lower(pos) {
                        Ok(refresh) => Ok(ClickOutcome::Changed(refresh)),
                        Err(e) => Err(e),
                    }
                },
            }
        },
        Tool::Surface => {
            let desired = match button {
                ClickButton::Primary => Surface::Piste,
                ClickButton::Secondary => Surface::Normal,
            };
            match grid.set_surface(pos, desired) {
                Ok(refresh) => Ok(ClickOutcome::Changed(refresh)),
                Err(e) => Err(e),
            }
        },
        Tool::Place => {
            match button {
                ClickButton::Primary => {
                    if !grid.contains_cell(pos) {
                        return Err(GridError::UnknownCell);
                    }
                    let type_id = match cursor.selected_object_type {
                        Some(ObjectType::Structure(type_id)) => type_id,
                        _ => {
                            return Err(GridError::NoSelection);
                        },
                    };
                    match grid.place_structure(StructureInstance::new(type_id, pos)) {
                        Ok(id) => Ok(ClickOutcome::Placed(id)),
                        Err(e) => Err(e),
                    }
                },
                ClickButton::Secondary => Ok(ClickOutcome::Ignored),
            }
        },
        _ => Ok(ClickOutcome::Ignored),
    }
}

/// What a surface-tool click guarantees: the transition rule of
/// `Grid::set_surface` for the desired surface, with the rest of the grid
/// untouched.
pub open spec fn spec_surface_click(
    before: Grid,
    after: Grid,
    pos: HexCoord,
    desired: Surface,
    r: Result<ClickOutcome, GridError>,
) -> bool {
    &&& !before.surface_map().contains_key(pos) ==> {
        &&& r == Err::<ClickOutcome, GridError>(GridError::UnknownCell)
        &&& after.surface_map() == before.surface_map()
    }
    &&& before.surface_map().contains_key(pos) && before.surface_map()[pos].spec_change_allowed(
        desired,
    ) ==> {
        &&& r == Ok::<ClickOutcome, GridError>(ClickOutcome::Changed(Refresh::spec_surface()))
        &&& after.surface_map() == before.surface_map().insert(pos, desired)
    }
    &&& before.surface_map().contains_key(pos) && !before.surface_map()[pos].spec_change_allowed(
        desired,
    ) ==> {
        &&& r == Err::<ClickOutcome, GridError>(GridError::InvalidSurfaceChange)
        &&& after.surface_map() == before.surface_map()
    }
    &&& after.height_map() == before.height_map()
    &&& after.objects_seq() == before.objects_seq()
}

/// A click on an object, dispatched by the active tool: with no tool or
/// the select tool a primary click selects the hovered object; with the
/// remove tool a primary click removes it from the registry. Failures
/// change nothing.
pub fn handle_object_click(grid: &mut Grid, cursor: &mut Cursor, button: ClickButton) -> (r: Result<
    ObjectClickOutcome,
    GridError,
>)
    requires
        old(grid).wf(),
    ensures
        final(grid).wf(),
        (old(cursor).tool == Tool::Idle || old(cursor).tool matches Tool::Select(_)) && button
            == ClickButton::Primary ==> {
            &&& old(cursor).spec_hover_object() matches Some(id) ==> {
                &&& r == Ok::<ObjectClickOutcome, GridError>(ObjectClickOutcome::Selected(id))
                &&& final(cursor).tool == Tool::Select(id)
                &&& *final(grid) == *old(grid)
            }
            &&& old(cursor).spec_hover_object() is None ==> {
                &&& r == Err::<ObjectClickOutcome, GridError>(GridError::NothingHovered)
                &&& final(cursor).tool == old(cursor).tool
                &&& *final(grid) == *old(grid)
            }
        },
        old(cursor).tool == Tool::Remove && button == ClickButton::Primary ==> {
            &&& final(cursor).tool == old(cursor).tool
            &&& old(cursor).spec_hover_object() matches Some(id) ==> {
                &&& contains_id(old(grid).objects_seq(), id) ==> {
                    &&& r == Ok::<ObjectClickOutcome, GridError>(ObjectClickOutcome::Removed(id))
                    &&& final(grid).objects_seq() == remove_id_spec(old(grid).objects_seq(), id)
                    &&& final(grid).next_instance_id() == old(grid).next_instance_id()
                }
                &&& !contains_id(old(grid).objects_seq(), id) ==> {
                    &&& r == Err::<ObjectClickOutcome, GridError>(GridError::UnknownInstance)
                    &&& final(grid).objects_seq() == old(grid).objects_seq()
                }
            }
            &&& old(cursor).spec_hover_object() is None ==> {
                &&& r == Err::<ObjectClickOutcome, GridError>(GridError::NothingHovered)
                &&& *final(grid) == *old(grid)
            }
            &&& final(grid).height_map() == old(grid).height_map()
            &&& final(grid).surface_map() == old(grid).surface_map()
        },
        !((old(cursor).tool == Tool::Idle || old(cursor).tool matches Tool::Select(_) || old(
            cursor,
        ).tool == Tool::Remove) && button == ClickButton::Primary) ==> {
            &&& r == Ok::<ObjectClickOutcome, GridError>(ObjectClickOutcome::Ignored)
            &&& final(cursor).tool == old(cursor).tool
            &&& *final(grid) == *old(grid)
        },
        final(cursor).hover_cell == old(cursor).hover_cell,
        final(cursor).hover_objects == old(cursor).hover_objects,
        final(cursor).selected_surface == old(cursor).selected_surface,
        final(cursor).selected_object_type == old(cursor).selected_object_type,
{
    let selecting = match cursor.tool {
        Tool::Idle => true,
        Tool::Select(_) => true,
        _ => false,
    };
    if selecting && matches!(button, ClickButton::Primary) {
        match cursor.hover_object() {
            Some(id) => {
                cursor.tool = Tool::Select(id);
                Ok(ObjectClickOutcome::Selected(id))
            },
            None => Err(GridError::NothingHovered),
        }
    } else if matches!(cursor.tool, Tool::Remove) && matches!(button, ClickButton::Primary) {
        match cursor.hover_object() {
            Some(id) => {
                match grid.remove_object(id) {
                    Ok(_) => Ok(ObjectClickOutcome::Removed(id)),
                    Err(e) => {
                        proof {
                            crate::registry::lemma_absent_id(old(grid).objects_seq(), id);
                        }
                        Err(e)
                    },
                }
            },
            None => Err(GridError::NothingHovered),
        }
    } else {
        Ok(ObjectClickOutcome::Ignored)
    }
}

} // verus!
