//! The state of a data grid: the cursor and mode, the pending command keys,
//! the cell edits, deletion marks and new rows, and the SQL that waits for
//! confirmation.
use vstd::prelude::*;
use super::filter::{ColumnFilter, FilterLogic, FilterOperator};
use super::mode::GridMode;
use crate::text::views;

verus! {

/// The state of a data grid.
///
/// `modified_cells` lists each edited cell `(row, column)` with its new text,
/// in the order the cells were first edited; a cell appears at most once.
pub struct DataGridState {
    /// The cell under the cursor, `(row, column)`.
    pub cursor: (usize, usize),
    pub mode: GridMode,
    /// Whether the grid has the keyboard.
    pub focused: bool,
    /// The prefix keys of a command being typed (`g`, `z`, `d`, …).
    pub command_buffer: String,
    /// The count typed before a command.
    pub count: Option<usize>,
    /// A row to scroll into view on the next frame.
    pub scroll_to_row: Option<usize>,
    /// The other corner of the selection in select mode.
    pub select_anchor: Option<(usize, usize)>,
    /// The cell being edited in insert mode.
    pub editing_cell: Option<(usize, usize)>,
    pub edit_text: String,
    /// The value the edited cell had.
    pub original_value: String,
    pub clipboard: Option<String>,
    /// A save was asked for.
    pub pending_save: bool,
    pub filters: Vec<ColumnFilter>,
    pub modified_cells: Vec<((usize, usize), String)>,
    pub rows_to_delete: Vec<usize>,
    pub new_rows: Vec<Vec<String>>,
    pub primary_key_column: Option<usize>,
    pub pending_sql: Vec<String>,
    pub show_save_confirm: bool,
    pub show_goto_dialog: bool,
    pub goto_input: String,
}

/// The model of a filter condition.
#[verifier::ext_equal]
pub struct FilterView {
    pub column: Seq<char>,
    pub operator: FilterOperator,
    pub value: Seq<char>,
    pub value2: Seq<char>,
    pub enabled: bool,
    pub case_sensitive: bool,
    pub logic: FilterLogic,
}

/// The model of a filter condition.
pub open spec fn filter_view(f: ColumnFilter) -> FilterView {
    FilterView {
        column: f.column@,
        operator: f.operator,
        value: f.value@,
        value2: f.value2@,
        enabled: f.enabled,
        case_sensitive: f.case_sensitive,
        logic: f.logic,
    }
}

/// The model of a new filter on `column`: enabled, case-insensitive
/// CONTAINS with empty values, joined by AND.
pub open spec fn fresh_filter(column: Seq<char>) -> FilterView {
    FilterView {
        column,
        operator: FilterOperator::Contains,
        value: seq![],
        value2: seq![],
        enabled: true,
        case_sensitive: false,
        logic: FilterLogic::And,
    }
}

/// The model of a grid's state: every field by its plain value.
#[verifier::ext_equal]
pub struct GridView {
    pub cursor: (usize, usize),
    pub mode: GridMode,
    pub focused: bool,
    pub keys: Seq<char>,
    pub count: Option<usize>,
    pub scroll_to_row: Option<usize>,
    pub select_anchor: Option<(usize, usize)>,
    pub editing_cell: Option<(usize, usize)>,
    pub edit_text: Seq<char>,
    pub original_value: Seq<char>,
    pub clipboard: Option<Seq<char>>,
    pub pending_save: bool,
    pub filters: Seq<FilterView>,
    pub modified_cells: Seq<((usize, usize), Seq<char>)>,
    pub rows_to_delete: Seq<usize>,
    pub new_rows: Seq<Seq<Seq<char>>>,
    pub primary_key_column: Option<usize>,
    pub pending_sql: Seq<Seq<char>>,
    pub show_save_confirm: bool,
    pub show_goto_dialog: bool,
    pub goto_input: Seq<char>,
}

/// The view of an optional string.
pub open spec fn opt_chars(o: Option<String>) -> Option<Seq<char>> {
    match o {
        Some(s) => Some(s@),
        None => None,
    }
}

/// The views of the edited cells.
pub open spec fn cell_views(v: Seq<((usize, usize), String)>) -> Seq<((usize, usize), Seq<char>)> {
    v.map_values(|e: ((usize, usize), String)| (e.0, e.1@))
}

/// The views of rows of cells.
pub open spec fn row_views(v: Seq<Vec<String>>) -> Seq<Seq<Seq<char>>> {
    v.map_values(|r: Vec<String>| views(r@))
}

impl View for DataGridState {
    type V = GridView;

    open spec fn view(&self) -> GridView {
        GridView {
            cursor: self.cursor,
            mode: self.mode,
            focused: self.focused,
            keys: self.command_buffer@,
            count: self.count,
            scroll_to_row: self.scroll_to_row,
            select_anchor: self.select_anchor,
            editing_cell: self.editing_cell,
            edit_text: self.edit_text@,
            original_value: self.original_value@,
            clipboard: opt_chars(self.clipboard),
            pending_save: self.pending_save,
            filters: self.filters@.map_values(|f: ColumnFilter| filter_view(f)),
            modified_cells: cell_views(self.modified_cells@),
            rows_to_delete: self.rows_to_delete@,
            new_rows: row_views(self.new_rows@),
            primary_key_column: self.primary_key_column,
            pending_sql: views(self.pending_sql@),
            show_save_confirm: self.show_save_confirm,
            show_goto_dialog: self.show_goto_dialog,
            goto_input: self.goto_input@,
        }
    }
}

// ---------------------------------------------------------------------------
// Cursor movement
// ---------------------------------------------------------------------------

/// `v + d`, kept within `0..=hi`.
pub open spec fn clamp_add(v: int, d: int, hi: int) -> int {
    let t = v + d;
    if t < 0 {
        0
    } else if t > hi {
        hi
    } else {
        t
    }
}

/// The state after moving the cursor by `(dr, dc)`, each coordinate kept on
/// the grid, and asking to scroll to the new row.
pub open spec fn moved(s: GridView, dr: int, dc: int, max_row: nat, max_col: nat) -> GridView {
    let r = clamp_add(s.cursor.0 as int, dr, max_row - 1) as usize;
    let c = clamp_add(s.cursor.1 as int, dc, max_col - 1) as usize;
    GridView { cursor: (r, c), scroll_to_row: Some(r), ..s }
}

/// The state after `n` moves by `(dr, dc)`.
pub open spec fn moved_n(s: GridView, dr: int, dc: int, n: nat, max_row: nat, max_col: nat) -> GridView
    decreases n,
{
    if n == 0 {
        s
    } else {
        moved(moved_n(s, dr, dc, (n - 1) as nat, max_row, max_col), dr, dc, max_row, max_col)
    }
}

/// A counted vertical move (`5j`, `3k`) from a cell on the grid goes that
/// many rows down or up, stopping at the last or first row, and keeps the
/// column and everything but the cursor and the scroll request.
pub proof fn lemma_counted_vertical_move(
    s: GridView,
    down: bool,
    n: nat,
    max_row: nat,
    max_col: nat,
)
    requires
        (s.cursor.0 as int) < max_row,
        (s.cursor.1 as int) < max_col,
        max_row <= usize::MAX + 1,
    ensures
        ({
            let t = moved_n(s, if down { 1 } else { -1 }, 0, n, max_row, max_col);
            &&& t.cursor.0 == (if down {
                if s.cursor.0 + n < max_row { s.cursor.0 + n } else { max_row - 1 }
            } else {
                if s.cursor.0 >= n { s.cursor.0 - n } else { 0 }
            })
            &&& t.cursor.1 == s.cursor.1
            &&& t == GridView { cursor: t.cursor, scroll_to_row: t.scroll_to_row, ..s }
        }),
    decreases n,
{
    if n > 0 {
        lemma_counted_vertical_move(s, down, (n - 1) as nat, max_row, max_col);
    }
}

/// The cursor moved to the first column.
pub open spec fn at_line_start(s: GridView) -> GridView {
    GridView { cursor: (s.cursor.0, 0), ..s }
}

/// The cursor moved to the last column.
pub open spec fn at_line_end(s: GridView, max_col: nat) -> GridView {
    GridView { cursor: (s.cursor.0, (if max_col == 0 { 0 } else { max_col - 1 }) as usize), ..s }
}

/// The cursor moved to the first row, scrolled into view.
pub open spec fn at_file_start(s: GridView) -> GridView {
    GridView { cursor: (0, s.cursor.1), scroll_to_row: Some(0), ..s }
}

/// The cursor moved to the last row, scrolled into view.
pub open spec fn at_file_end(s: GridView, max_row: nat) -> GridView {
    let r = (if max_row == 0 { 0 } else { max_row - 1 }) as usize;
    GridView { cursor: (r, s.cursor.1), scroll_to_row: Some(r), ..s }
}

/// Whether there are edits that are not saved.
pub open spec fn has_edits(s: GridView) -> bool {
    s.modified_cells.len() > 0 || s.rows_to_delete.len() > 0 || s.new_rows.len() > 0
}

/// The edits forgotten.
pub open spec fn edits_cleared(s: GridView) -> GridView {
    GridView { modified_cells: seq![], rows_to_delete: seq![], new_rows: seq![], ..s }
}

/// The rectangle between the anchor and the cursor, as its top-left and
/// bottom-right corners, when there is an anchor.
pub open spec fn selection(s: GridView) -> Option<((usize, usize), (usize, usize))> {
    match s.select_anchor {
        Some(a) => {
            let c = s.cursor;
            Some(
                (
                    ((if a.0 <= c.0 { a.0 } else { c.0 }), (if a.1 <= c.1 { a.1 } else { c.1 })),
                    ((if a.0 <= c.0 { c.0 } else { a.0 }), (if a.1 <= c.1 { c.1 } else { a.1 })),
                ),
            )
        },
        None => None,
    }
}

fn clamp_move(v: usize, d: isize, max: usize) -> (r: usize)
    requires
        max > 0,
    ensures
        r == clamp_add(v as int, d as int, max - 1),
{
    let t: i128 = v as i128 + d as i128;
    if t < 0 {
        0
    } else if t > (max - 1) as i128 {
        max - 1
    } else {
        t as usize
    }
}

impl Default for DataGridState {
    fn default() -> (r: Self)
        ensures
            r@ == (GridView {
                cursor: (0, 0),
                mode: GridMode::Normal,
                focused: false,
                keys: seq![],
                count: None,
                scroll_to_row: None,
                select_anchor: None,
                editing_cell: None,
                edit_text: seq![],
                original_value: seq![],
                clipboard: None,
                pending_save: false,
                filters: seq![],
                modified_cells: seq![],
                rows_to_delete: seq![],
                new_rows: seq![],
                primary_key_column: None,
                pending_sql: seq![],
                show_save_confirm: false,
                show_goto_dialog: false,
                goto_input: seq![],
            }),
    {
        let r = DataGridState {
            cursor: (0, 0),
            mode: GridMode::Normal,
            focused: false,
            command_buffer: String::new(),
            count: None,
            scroll_to_row: None,
            select_anchor: None,
            editing_cell: None,
            edit_text: String::new(),
            original_value: String::new(),
            clipboard: None,
            pending_save: false,
            filters: Vec::new(),
            modified_cells: Vec::new(),
            rows_to_delete: Vec::new(),
            new_rows: Vec::new(),
            primary_key_column: None,
            pending_sql: Vec::new(),
            show_save_confirm: false,
            show_goto_dialog: false,
            goto_input: String::new(),
        };
        assert(r@.filters =~= seq![]);
        assert(r@.modified_cells =~= seq![]);
        assert(r@.new_rows =~= seq![]);
        assert(r@.pending_sql =~= seq![]);
        r
    }
}

impl DataGridState {
    /// Moves the cursor by `(dr, dc)`, keeping it on the grid, and asks to
    /// scroll to its row.
    pub fn move_cursor(&mut self, dr: isize, dc: isize, max_row: usize, max_col: usize)
        requires
            max_row > 0,
            max_col > 0,
        ensures
            final(self)@ == moved(old(self)@, dr as int, dc as int, max_row as nat, max_col as nat),
    {
        let r = clamp_move(self.cursor.0, dr, max_row);
        let c = clamp_move(self.cursor.1, dc, max_col);
        self.cursor = (r, c);
        self.scroll_to_row = Some(r);
    }

    /// Moves the cursor to the first column.
    pub fn goto_line_start(&mut self)
        ensures
            final(self)@ == at_line_start(old(self)@),
    {
        self.cursor.1 = 0;
    }

    /// Moves the cursor to the last column.
    pub fn goto_line_end(&mut self, max_col: usize)
        ensures
            final(self)@ == at_line_end(old(self)@, max_col as nat),
    {
        self.cursor.1 = if max_col == 0 { 0 } else { max_col - 1 };
    }

    /// Moves the cursor to the first row.
    pub fn goto_file_start(&mut self)
        ensures
            final(self)@ == at_file_start(old(self)@),
    {
        self.cursor.0 = 0;
        self.scroll_to_row = Some(0);
    }

    /// Moves the cursor to the last row.
    pub fn goto_file_end(&mut self, max_row: usize)
        ensures
            final(self)@ == at_file_end(old(self)@, max_row as nat),
    {
        let r = if max_row == 0 { 0 } else { max_row - 1 };
        self.cursor.0 = r;
        self.scroll_to_row = Some(r);
    }

    /// Whether there are cell edits, deletion marks or new rows.
    pub fn has_changes(&self) -> (r: bool)
        ensures
            r == has_edits(self@),
    {
        self.modified_cells.len() > 0 || self.rows_to_delete.len() > 0 || self.new_rows.len() > 0
    }

    /// The selected rectangle (see `selection`).
    pub fn get_selection(&self) -> (r: Option<((usize, usize), (usize, usize))>)
        ensures
            r == selection(self@),
    {
        match self.select_anchor {
            Some(a) => {
                let c = self.cursor;
                let r0 = if a.0 <= c.0 { a.0 } else { c.0 };
                let r1 = if a.0 <= c.0 { c.0 } else { a.0 };
                let c0 = if a.1 <= c.1 { a.1 } else { c.1 };
                let c1 = if a.1 <= c.1 { c.1 } else { a.1 };
                Some(((r0, c0), (r1, c1)))
            },
            None => None,
        }
    }

    /// Forgets all cell edits, deletion marks and new rows.
    pub fn clear_edits(&mut self)
        ensures
            final(self)@ == edits_cleared(old(self)@),
    {
        self.modified_cells = Vec::new();
        self.rows_to_delete = Vec::new();
        self.new_rows = Vec::new();
        assert(self@.modified_cells =~= seq![]);
        assert(self@.new_rows =~= seq![]);
    }
}

} // verus!
