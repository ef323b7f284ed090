//! What the mouse and the cell editor do to the grid's edits.

use gridix::ui::components::grid::render::{
    begin_cell_edit, cell_display_text, cell_display_value, click_cell, finish_cell_edit,
    mark_row_for_deletion, paste_into_cell, revert_cell, unmark_row_for_deletion,
};
use gridix::ui::components::grid::GridMode;
use gridix::ui::DataGridState;

#[test]
fn editing_a_cell_records_only_changes() {
    let mut state = DataGridState::default();
    click_cell(&mut state, 2, 1);
    assert_eq!(state.cursor, (2, 1));
    assert!(state.focused);
    let shown = cell_display_value(&state, 2, 1, "Alice");
    assert_eq!(shown, "Alice");
    begin_cell_edit(&mut state, 2, 1, "Alice", &shown);
    assert_eq!(state.mode, GridMode::Insert);
    assert_eq!(state.editing_cell, Some((2, 1)));
    finish_cell_edit(&mut state, 2, 1);
    assert!(state.modified_cells.is_empty());
    assert_eq!(state.mode, GridMode::Normal);
    begin_cell_edit(&mut state, 2, 1, "Alice", &shown);
    state.edit_text = "Alicia".to_string();
    finish_cell_edit(&mut state, 2, 1);
    assert_eq!(state.modified_cells, vec![((2, 1), "Alicia".to_string())]);
    assert_eq!(cell_display_value(&state, 2, 1, "Alice"), "Alicia");
    // a second edit of the same cell replaces the first
    begin_cell_edit(&mut state, 2, 1, "Alice", "Alicia");
    state.edit_text = "Al".to_string();
    finish_cell_edit(&mut state, 2, 1);
    assert_eq!(state.modified_cells, vec![((2, 1), "Al".to_string())]);
    revert_cell(&mut state, 2, 1);
    assert!(state.modified_cells.is_empty());
}

#[test]
fn paste_and_row_marks() {
    let mut state = DataGridState::default();
    paste_into_cell(&mut state, 0, 0);
    assert!(state.modified_cells.is_empty());
    state.clipboard = Some("x".to_string());
    paste_into_cell(&mut state, 0, 0);
    assert_eq!(state.modified_cells, vec![((0, 0), "x".to_string())]);
    mark_row_for_deletion(&mut state, 3);
    mark_row_for_deletion(&mut state, 3);
    mark_row_for_deletion(&mut state, 1);
    assert_eq!(state.rows_to_delete, vec![3, 1]);
    unmark_row_for_deletion(&mut state, 3);
    assert_eq!(state.rows_to_delete, vec![1]);
}

#[test]
fn cell_text_is_cut_and_null_marked() {
    assert_eq!(cell_display_text("NULL"), "∅ NULL");
    assert_eq!(cell_display_text("short"), "short");
    let long = "a".repeat(60);
    assert_eq!(cell_display_text(&long), format!("{}...", "a".repeat(47)));
    assert_eq!(cell_display_text(&"b".repeat(50)), "b".repeat(50));
}

#[test]
fn mode_labels_and_colours() {
    assert_eq!(GridMode::Normal.display_name(), "NORMAL");
    assert_eq!(GridMode::Select.display_name(), "SELECT");
    assert_eq!(GridMode::Normal.color(), egui::Color32::from_rgb(130, 170, 255));
    assert_eq!(GridMode::Insert.color(), egui::Color32::from_rgb(150, 220, 130));
    assert_eq!(GridMode::Select.color(), egui::Color32::from_rgb(200, 150, 255));
}
