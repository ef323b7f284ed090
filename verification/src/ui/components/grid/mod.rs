//! The Helix-style data grid: edit state, SQL generation, filtering and modes.
pub mod actions;
pub mod filter;
pub mod keyboard;
pub mod mode;
pub mod render;
pub mod state;

pub use actions::{escape_identifier, escape_value, quote_identifier, ActionsView, DataGridActions, FocusTransfer};
pub use filter::{check_filter_match, ColumnFilter, FilterLogic, FilterOperator, NumKey};
pub use state::DataGridState;
pub use mode::GridMode;

use vstd::prelude::*;
use crate::text::{chars_of, decimal, parse_usize, parsed_usize, push_decimal, trim, trim_chars};
use crate::database::QueryResult;
use actions::with_message;
use keyboard::{empty_row, empty_row_exec};
use state::GridView;

verus! {

/// The data grid widget.
pub struct DataGrid;

/// The "go to line" prompt taken: a line number from 1 to `max_row` (the
/// text trimmed, read as an unsigned number) moves the cursor to that row
/// and scrolls to it; anything else moves nothing. The prompt closes and
/// its text is cleared either way.
pub open spec fn goto_done(s: GridView, max_row: usize) -> GridView {
    let closed = GridView { show_goto_dialog: false, goto_input: seq![], ..s };
    match parsed_usize(trim(s.goto_input)) {
        Some(line) => if 1 <= line && line <= max_row {
            GridView {
                cursor: ((line - 1) as usize, s.cursor.1),
                scroll_to_row: Some((line - 1) as usize),
                ..closed
            }
        } else {
            closed
        },
        None => closed,
    }
}

impl DataGrid {
    /// Takes the "go to line" prompt (Enter or its button), over `max_row`
    /// rows (see `goto_done`).
    pub fn confirm_goto(state: &mut DataGridState, max_row: usize)
        ensures
            final(state)@ == goto_done(old(state)@, max_row),
    {
        let chars = chars_of(state.goto_input.as_str());
        let t = trim_chars(&chars);
        if let Some(line) = parse_usize(&t) {
            if line >= 1 && line <= max_row {
                state.cursor.0 = line - 1;
                state.scroll_to_row = Some(line - 1);
            }
        }
        state.show_goto_dialog = false;
        state.goto_input = String::new();
        assert(state@.goto_input =~= seq![]);
    }

    /// Cancels the "go to line" prompt (Escape or its button): it closes and
    /// its text is cleared.
    pub fn cancel_goto(state: &mut DataGridState)
        ensures
            final(state)@ == (GridView { show_goto_dialog: false, goto_input: seq![], ..old(state)@ }),
    {
        state.show_goto_dialog = false;
        state.goto_input = String::new();
        assert(state@.goto_input =~= seq![]);
    }
}

/// The cursor's place in the mode bar: row and column counted from 1, `r:c`.
pub open spec fn position_text(cursor: (usize, usize)) -> Seq<char> {
    decimal((cursor.0 + 1) as nat) + ":"@ + decimal((cursor.1 + 1) as nat)
}

/// The size of the selection in the mode bar: `选择: rows x columns`.
pub open spec fn selection_text(sel: ((usize, usize), (usize, usize))) -> Seq<char> {
    let ((r0, c0), (r1, c1)) = sel;
    "选择: "@ + decimal((r1 - r0 + 1) as nat) + "x"@ + decimal((c1 - c0 + 1) as nat)
}

/// The grid after "+ row" in the mode bar, over a result of `result_rows`
/// rows and `columns` columns: an empty row is appended to the new rows, and
/// the cursor goes to its first cell, scrolled to, with the keyboard.
pub open spec fn row_appended(s: GridView, result_rows: nat, columns: nat) -> GridView {
    let r = (result_rows + s.new_rows.len()) as usize;
    GridView {
        new_rows: s.new_rows.push(empty_row(columns)),
        cursor: (r, 0),
        scroll_to_row: Some(r),
        focused: true,
        ..s
    }
}

impl DataGrid {
    /// The cursor's place in the mode bar (see `position_text`).
    pub fn position_text(state: &DataGridState) -> (r: String)
        requires
            state.cursor.0 < u64::MAX,
            state.cursor.1 < u64::MAX,
        ensures
            r@ == position_text(state.cursor),
    {
        let mut s = String::new();
        push_decimal(&mut s, (state.cursor.0 as u64) + 1);
        s.append(":");
        push_decimal(&mut s, (state.cursor.1 as u64) + 1);
        s
    }

    /// The size of the selection in the mode bar, in select mode (see
    /// `selection_text`).
    pub fn selection_text(state: &DataGridState) -> (r: Option<String>)
        requires
            state::selection(state@) matches Some(((r0, c0), (r1, c1))) ==> r1 - r0 < u64::MAX && c1
                - c0 < u64::MAX,
        ensures
            match state::selection(state@) {
                Some(sel) => r matches Some(t) && t@ == selection_text(sel),
                None => r is None,
            },
    {
        match state.get_selection() {
            Some(((r0, c0), (r1, c1))) => {
                let mut s = String::from_str("选择: ");
                push_decimal(&mut s, ((r1 - r0) as u64) + 1);
                s.append("x");
                push_decimal(&mut s, ((c1 - c0) as u64) + 1);
                Some(s)
            },
            None => None,
        }
    }

    /// "+ row" in the mode bar (see `row_appended`); the message says so.
    pub fn append_row(state: &mut DataGridState, result: &QueryResult, actions: &mut DataGridActions)
        requires
            result.rows@.len() + old(state).new_rows@.len() < usize::MAX,
        ensures
            final(state)@ == row_appended(old(state)@, result.rows@.len(), result.columns@.len()),
            final(actions)@ == with_message(old(actions)@, "已添加新行"@),
    {
        let ghost before = state@;
        let row = empty_row_exec(result.columns.len());
        state.new_rows.push(row);
        let r = result.rows.len() + state.new_rows.len() - 1;
        state.cursor = (r, 0);
        state.scroll_to_row = Some(r);
        state.focused = true;
        actions.message = Some(String::from_str("已添加新行"));
        assert(state@.new_rows =~= before.new_rows.push(empty_row(result.columns@.len())));
    }
}

} // verus!
