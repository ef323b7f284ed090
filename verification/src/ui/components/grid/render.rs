//! What a grid cell shows.
use vstd::prelude::*;
use crate::text::{bytes_prefix, chars_of, cut_with_ellipsis, is_char_boundary, str_eq, utf8_len, utf8_len_exceeds};
use super::keyboard::{
    cell_edit, cell_edit_exec, cells_insert, cells_insert_exec, cells_remove, cells_remove_exec, cells_unique,
    contains_row, lemma_cells_insert_unique, lemma_cells_remove_unique, lemma_without_unique, marks_unique,
    without, without_exec,
};
use super::mode::GridMode;
use super::state::{DataGridState, GridView};

verus! {

/// Cells longer than this many bytes are cut when shown.
pub const CELL_TRUNCATE_LEN: usize = 50;

/// The text a cell shows: `∅ NULL` for SQL NULL; a cell over 50 bytes cut
/// to its first 47 bytes and `...`; any other cell as it is.
pub open spec fn cell_display(cell: Seq<char>) -> Seq<char> {
    if cell == "NULL"@ {
        "∅ NULL"@
    } else if utf8_len(cell) > CELL_TRUNCATE_LEN {
        bytes_prefix(cell, (CELL_TRUNCATE_LEN - 3) as nat) + "..."@
    } else {
        cell
    }
}

/// The text a cell shows (see `cell_display`); the styling (italics for
/// NULL, underline under the cursor) is the renderer's.
pub fn cell_display_text(cell: &str) -> (r: String)
    requires
        cell@ != "NULL"@ && utf8_len(cell@) > CELL_TRUNCATE_LEN ==> is_char_boundary(
            cell@,
            (CELL_TRUNCATE_LEN - 3) as nat,
        ),
    ensures
        r@ == cell_display(cell@),
{
    if str_eq(cell, "NULL") {
        return String::from_str("∅ NULL");
    }
    let v = chars_of(cell);
    if utf8_len_exceeds(&v, CELL_TRUNCATE_LEN) {
        cut_with_ellipsis(cell, CELL_TRUNCATE_LEN - 3)
    } else {
        String::from_str(cell)
    }
}

// ---------------------------------------------------------------------------
// What the mouse does to a cell
// ---------------------------------------------------------------------------

/// The text a cell shows and is edited from: its edit if it has one, else
/// its value in the result.
pub fn cell_display_value(state: &DataGridState, row_idx: usize, col_idx: usize, cell: &str) -> (r: String)
    ensures
        r@ == match cell_edit(state@.modified_cells, (row_idx, col_idx)) {
            Some(v) => v,
            None => cell@,
        },
{
    match cell_edit_exec(&state.modified_cells, (row_idx, col_idx)) {
        Some(v) => v,
        None => String::from_str(cell),
    }
}

/// A click on a cell: the cursor goes there and the grid takes the keyboard.
pub fn click_cell(state: &mut DataGridState, row_idx: usize, col_idx: usize)
    ensures
        final(state)@ == (GridView { cursor: (row_idx, col_idx), focused: true, ..old(state)@ }),
{
    state.cursor = (row_idx, col_idx);
    state.focused = true;
}

/// Editing a cell from the mouse (double click, or "edit" in its menu): the
/// editor starts from the text the cell shows, and remembers its value in the
/// result to tell whether it changed.
pub fn begin_cell_edit(
    state: &mut DataGridState,
    row_idx: usize,
    col_idx: usize,
    cell: &str,
    display_value: &str,
)
    ensures
        final(state)@ == (GridView {
            mode: GridMode::Insert,
            editing_cell: Some((row_idx, col_idx)),
            edit_text: display_value@,
            original_value: cell@,
            ..old(state)@
        }),
{
    state.mode = GridMode::Insert;
    state.editing_cell = Some((row_idx, col_idx));
    state.edit_text = String::from_str(display_value);
    state.original_value = String::from_str(cell);
}

/// Leaving a cell's editor (Escape, Enter, or the editor losing focus): a
/// text that differs from the value it started from becomes the cell's edit;
/// the grid goes back to normal mode. No cell gets a second edit.
pub fn finish_cell_edit(state: &mut DataGridState, row_idx: usize, col_idx: usize)
    ensures
        final(state)@ == (GridView {
            modified_cells: if old(state).edit_text@ != old(state).original_value@ {
                cells_insert(old(state)@.modified_cells, (row_idx, col_idx), old(state).edit_text@)
            } else {
                old(state)@.modified_cells
            },
            editing_cell: None,
            mode: GridMode::Normal,
            ..old(state)@
        }),
        cells_unique(old(state)@.modified_cells) ==> cells_unique(final(state)@.modified_cells),
{
    if !str_eq(state.edit_text.as_str(), state.original_value.as_str()) {
        let t = state.edit_text.clone();
        cells_insert_exec(&mut state.modified_cells, (row_idx, col_idx), t);
        proof {
            if cells_unique(old(state)@.modified_cells) {
                lemma_cells_insert_unique(old(state)@.modified_cells, (row_idx, col_idx), old(state).edit_text@);
            }
        }
    }
    state.editing_cell = None;
    state.mode = GridMode::Normal;
}

/// "Paste" in a cell's menu: the grid's clipboard, if it holds a text,
/// becomes the cell's edit.
pub fn paste_into_cell(state: &mut DataGridState, row_idx: usize, col_idx: usize)
    ensures
        final(state)@ == (GridView {
            modified_cells: match old(state).clipboard {
                Some(t) => cells_insert(old(state)@.modified_cells, (row_idx, col_idx), t@),
                None => old(state)@.modified_cells,
            },
            ..old(state)@
        }),
        cells_unique(old(state)@.modified_cells) ==> cells_unique(final(state)@.modified_cells),
{
    match &state.clipboard {
        Some(t) => {
            let v = t.clone();
            cells_insert_exec(&mut state.modified_cells, (row_idx, col_idx), v);
            proof {
                if cells_unique(old(state)@.modified_cells) {
                    lemma_cells_insert_unique(old(state)@.modified_cells, (row_idx, col_idx), v@);
                }
            }
        },
        None => {},
    }
}

/// "Revert" in a cell's menu: the cell's edit is dropped.
pub fn revert_cell(state: &mut DataGridState, row_idx: usize, col_idx: usize)
    ensures
        final(state)@ == (GridView {
            modified_cells: cells_remove(old(state)@.modified_cells, (row_idx, col_idx)),
            ..old(state)@
        }),
        cells_unique(old(state)@.modified_cells) ==> cells_unique(final(state)@.modified_cells),
{
    let _ = cells_remove_exec(&mut state.modified_cells, (row_idx, col_idx));
    proof {
        if cells_unique(old(state)@.modified_cells) {
            lemma_cells_remove_unique(old(state)@.modified_cells, (row_idx, col_idx));
        }
    }
}

/// "Mark for deletion" in a row's menu: the row is marked, once.
pub fn mark_row_for_deletion(state: &mut DataGridState, row_idx: usize)
    ensures
        final(state)@ == (GridView {
            rows_to_delete: if old(state).rows_to_delete@.contains(row_idx) {
                old(state).rows_to_delete@
            } else {
                old(state).rows_to_delete@.push(row_idx)
            },
            ..old(state)@
        }),
        marks_unique(old(state).rows_to_delete@) ==> marks_unique(final(state).rows_to_delete@),
{
    if !contains_row(&state.rows_to_delete, row_idx) {
        state.rows_to_delete.push(row_idx);
    }
}

/// "Undo deletion" in a row's menu: the row is no longer marked.
pub fn unmark_row_for_deletion(state: &mut DataGridState, row_idx: usize)
    ensures
        final(state)@ == (GridView { rows_to_delete: without(old(state).rows_to_delete@, row_idx), ..old(state)@ }),
        marks_unique(old(state).rows_to_delete@) ==> marks_unique(final(state).rows_to_delete@),
{
    let kept = without_exec(&state.rows_to_delete, row_idx);
    state.rows_to_delete = kept;
    proof {
        if marks_unique(old(state).rows_to_delete@) {
            lemma_without_unique(old(state).rows_to_delete@, row_idx);
        }
    }
}

} // verus!
