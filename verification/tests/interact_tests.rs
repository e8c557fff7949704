use hex_terrain::cursor::{Cursor, HoverObjects, Tool};
use hex_terrain::grid::{CellSample, Grid, GridError, WorldGenSettings};
use hex_terrain::hex::{offset_to_axial, HexCoord};
use hex_terrain::interact::{
    handle_cell_click, handle_hover_end, handle_hover_start, handle_object_click, outline_state,
    ClickButton, ClickOutcome, ObjectClickOutcome, OutlineState,
};
use hex_terrain::object::{ObjectType, StructureInstance};
use hex_terrain::surface::Surface;

fn flat_grid(width: u16, length: u16) -> Grid {
    let count = width as usize * length as usize + width as usize / 2;
    let samples = vec![CellSample { floor_height: 0, tree: false }; count];
    Grid::new(width, length, WorldGenSettings::default(), &samples)
}

#[test]
fn hover_tracks_existing_cells_only() {
    let grid = flat_grid(2, 2);
    let mut cursor = Cursor::new();
    let pos = offset_to_axial(1, 1);

    handle_hover_start(&mut cursor, &grid, pos).expect("hovering an existing cell succeeds");
    assert_eq!(cursor.hover_cell, Some(pos));

    let missing = HexCoord { q: 30, r: 30 };
    assert_eq!(
        handle_hover_start(&mut cursor, &grid, missing),
        Err(GridError::UnknownCell)
    );
    assert_eq!(cursor.hover_cell, Some(pos));
}

#[test]
fn hover_end_clears_only_the_matching_cell() {
    let grid = flat_grid(2, 2);
    let mut cursor = Cursor::new();
    let pos = offset_to_axial(0, 0);
    let other = offset_to_axial(1, 0);

    handle_hover_start(&mut cursor, &grid, pos).expect("hovering succeeds");
    handle_hover_end(&mut cursor, other);
    assert_eq!(cursor.hover_cell, Some(pos));
    handle_hover_end(&mut cursor, pos);
    assert_eq!(cursor.hover_cell, None);
}

#[test]
fn hover_object_focus() {
    let mut cursor = Cursor::new();
    assert_eq!(cursor.hover_object(), None);

    cursor.hover_objects = HoverObjects::Single(4);
    assert_eq!(cursor.hover_object(), Some(4));

    cursor.hover_objects = HoverObjects::Many(vec![7, 8, 9], 1);
    assert_eq!(cursor.hover_object(), Some(8));

    cursor.hover_objects = HoverObjects::Many(vec![7, 8, 9], 5);
    assert_eq!(cursor.hover_object(), None);
}

#[test]
fn terrain_tool_clicks_edit_heights() {
    let mut grid = flat_grid(2, 2);
    let mut cursor = Cursor::new();
    cursor.tool = Tool::Terrain;
    let pos = offset_to_axial(0, 0);

    let outcome = handle_cell_click(&mut grid, &cursor, pos, ClickButton::Primary)
        .expect("raising through the terrain tool succeeds");
    match outcome {
        ClickOutcome::Changed(refresh) => {
            assert!(refresh.meshes);
            assert!(refresh.materials);
            assert!(refresh.structure_heights);
            assert!(refresh.hover_indicator);
        },
        other => panic!("expected a change, got {:?}", other),
    }
    assert_eq!(grid.height_of(pos), Some(1));

    handle_cell_click(&mut grid, &cursor, pos, ClickButton::Secondary)
        .expect("lowering through the terrain tool succeeds");
    assert_eq!(grid.height_of(pos), Some(0));

    assert_eq!(
        handle_cell_click(&mut grid, &cursor, pos, ClickButton::Secondary),
        Err(GridError::HeightAtMinimum)
    );
    assert_eq!(grid.height_of(pos), Some(0));
}

#[test]
fn surface_tool_clicks_edit_piste() {
    let mut grid = flat_grid(2, 2);
    let mut cursor = Cursor::new();
    cursor.tool = Tool::Surface;
    let pos = offset_to_axial(1, 0);

    let outcome = handle_cell_click(&mut grid, &cursor, pos, ClickButton::Primary)
        .expect("laying piste through the surface tool succeeds");
    match outcome {
        ClickOutcome::Changed(refresh) => {
            assert!(refresh.materials);
            assert!(!refresh.meshes);
        },
        other => panic!("expected a change, got {:?}", other),
    }
    assert_eq!(grid.surface_of(pos), Some(Surface::Piste));

    handle_cell_click(&mut grid, &cursor, pos, ClickButton::Secondary)
        .expect("clearing piste through the surface tool succeeds");
    assert_eq!(grid.surface_of(pos), Some(Surface::Normal));

    assert_eq!(
        handle_cell_click(&mut grid, &cursor, pos, ClickButton::Secondary),
        Err(GridError::InvalidSurfaceChange)
    );
}

#[test]
fn place_tool_needs_a_selection_and_a_free_cell() {
    let mut grid = flat_grid(2, 2);
    let mut cursor = Cursor::new();
    cursor.tool = Tool::Place;
    let pos = offset_to_axial(0, 1);

    assert_eq!(
        handle_cell_click(&mut grid, &cursor, pos, ClickButton::Primary),
        Err(GridError::NoSelection)
    );

    cursor.selected_object_type = Some(ObjectType::Structure(111));
    let outcome = handle_cell_click(&mut grid, &cursor, pos, ClickButton::Primary)
        .expect("placing on a free cell succeeds");
    let id = match outcome {
        ClickOutcome::Placed(id) => id,
        other => panic!("expected a placement, got {:?}", other),
    };
    assert_eq!(grid.get_cell_objects(pos), Some(vec![id]));

    assert_eq!(
        handle_cell_click(&mut grid, &cursor, pos, ClickButton::Primary),
        Err(GridError::CellOccupied)
    );
    assert_eq!(
        handle_cell_click(&mut grid, &cursor, HexCoord { q: 9, r: 9 }, ClickButton::Primary),
        Err(GridError::UnknownCell)
    );
    assert_eq!(
        handle_cell_click(&mut grid, &cursor, pos, ClickButton::Secondary),
        Ok(ClickOutcome::Ignored)
    );
}

#[test]
fn idle_tool_ignores_cell_clicks() {
    let mut grid = flat_grid(2, 2);
    let cursor = Cursor::new();
    let pos = offset_to_axial(0, 0);
    assert_eq!(
        handle_cell_click(&mut grid, &cursor, pos, ClickButton::Primary),
        Ok(ClickOutcome::Ignored)
    );
    assert_eq!(grid.height_of(pos), Some(0));
}

#[test]
fn object_clicks_select_and_remove() {
    let mut grid = flat_grid(2, 2);
    let pos = offset_to_axial(0, 0);
    let id = grid
        .place_structure(StructureInstance::new(111, pos))
        .expect("placing succeeds");

    // With no tool, clicking the hovered object selects it.
    let mut cursor = Cursor::new();
    cursor.hover_objects = HoverObjects::Single(id);
    let outcome = handle_object_click(&mut grid, &mut cursor, ClickButton::Primary)
        .expect("selecting the hovered object succeeds");
    assert_eq!(outcome, ObjectClickOutcome::Selected(id));
    assert_eq!(cursor.tool, Tool::Select(id));
    assert_eq!(grid.get_cell_objects(pos), Some(vec![id]));

    // The remove tool takes the hovered object out of the registry.
    cursor.tool = Tool::Remove;
    let outcome = handle_object_click(&mut grid, &mut cursor, ClickButton::Primary)
        .expect("removing the hovered object succeeds");
    assert_eq!(outcome, ObjectClickOutcome::Removed(id));
    assert_eq!(grid.get_cell_objects(pos), None);

    // Removing it again fails: the instance id is gone.
    assert_eq!(
        handle_object_click(&mut grid, &mut cursor, ClickButton::Primary),
        Err(GridError::UnknownInstance)
    );
}

#[test]
fn object_clicks_need_a_hover() {
    let mut grid = flat_grid(2, 2);
    let mut cursor = Cursor::new();
    assert_eq!(
        handle_object_click(&mut grid, &mut cursor, ClickButton::Primary),
        Err(GridError::NothingHovered)
    );
    cursor.tool = Tool::Remove;
    assert_eq!(
        handle_object_click(&mut grid, &mut cursor, ClickButton::Primary),
        Err(GridError::NothingHovered)
    );
    // Secondary clicks and editing tools ignore object clicks.
    cursor.tool = Tool::Terrain;
    assert_eq!(
        handle_object_click(&mut grid, &mut cursor, ClickButton::Primary),
        Ok(ObjectClickOutcome::Ignored)
    );
    cursor.tool = Tool::Remove;
    assert_eq!(
        handle_object_click(&mut grid, &mut cursor, ClickButton::Secondary),
        Ok(ObjectClickOutcome::Ignored)
    );
}

#[test]
fn outline_follows_selection_and_hover() {
    let mut cursor = Cursor::new();
    assert_eq!(outline_state(&cursor, 3), OutlineState::Hidden);

    cursor.tool = Tool::Select(3);
    assert_eq!(outline_state(&cursor, 3), OutlineState::Selected);
    assert_eq!(outline_state(&cursor, 4), OutlineState::Hidden);

    cursor.tool = Tool::Idle;
    cursor.hover_objects = HoverObjects::Single(3);
    assert_eq!(outline_state(&cursor, 3), OutlineState::Focused);
    assert_eq!(outline_state(&cursor, 4), OutlineState::Hidden);

    cursor.hover_objects = HoverObjects::Many(vec![2, 3, 4], 1);
    assert_eq!(outline_state(&cursor, 3), OutlineState::Focused);
    assert_eq!(outline_state(&cursor, 2), OutlineState::Hovered);
    assert_eq!(outline_state(&cursor, 4), OutlineState::Hovered);
    assert_eq!(outline_state(&cursor, 9), OutlineState::Hidden);

    // Selection outranks hover.
    cursor.tool = Tool::Select(4);
    assert_eq!(outline_state(&cursor, 4), OutlineState::Selected);
}

#[test]
fn catalog_lists_the_fixed_structure_types() {
    let catalog = hex_terrain::object::structure_catalog();
    assert_eq!(catalog.len(), 3);
    assert_eq!(catalog[0].0, 1);
    assert_eq!(catalog[0].1.name, "Tree");
    assert_eq!(catalog[1].0, 111);
    assert_eq!(catalog[1].1.name, "Red Box");
    assert_eq!(catalog[2].0, 222);
    assert_eq!(catalog[2].1.name, "Blue Sphere");
}
