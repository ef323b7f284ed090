//! The grid's keyboard, after Helix: what each key does in normal and select
//! mode, with counts (`5j`) and prefix keys (`gg`, `dd`, `zz`, `:w`, …).
//!
//! The whole handler is a transition of the grid's model: `keyboard_step`
//! gives the state and the requests after one frame's keys.
use vstd::prelude::*;
use crate::database::QueryResult;
use crate::text::{chars_of, decimal, join, join_strings, push_char, push_decimal, str_eq, views};
use crate::ui::input::{Key, KeyInput};
use super::actions::{ActionsView, DataGridActions, FocusTransfer, with_message};
use super::filter::ColumnFilter;
use super::mode::GridMode;
use super::state::{
    at_file_end, at_file_start, at_line_end, at_line_start, cell_views, edits_cleared, filter_view,
    fresh_filter, has_edits, lemma_counted_vertical_move, moved, moved_n, row_views, selection,
    DataGridState, FilterView, GridView,
};

verus! {

// ---------------------------------------------------------------------------
// The model
// ---------------------------------------------------------------------------

/// What the keys act on besides the state: the column names, the number of
/// rows of the result, and the rows shown (after filtering), in order.
pub struct GridContext {
    pub columns: Seq<Seq<char>>,
    pub result_rows: nat,
    pub rows: Seq<Seq<Seq<char>>>,
}

/// The context of a result and the rows shown.
pub open spec fn grid_context(result: QueryResult, shown: Seq<(usize, &Vec<String>)>) -> GridContext {
    GridContext {
        columns: result.column_views(),
        result_rows: result.rows@.len(),
        rows: shown.map_values(|p: (usize, &Vec<String>)| views(p.1@)),
    }
}

/// The key of a decimal digit.
pub open spec fn digit_key(d: nat) -> Key {
    if d == 0 {
        Key::Num0
    } else if d == 1 {
        Key::Num1
    } else if d == 2 {
        Key::Num2
    } else if d == 3 {
        Key::Num3
    } else if d == 4 {
        Key::Num4
    } else if d == 5 {
        Key::Num5
    } else if d == 6 {
        Key::Num6
    } else if d == 7 {
        Key::Num7
    } else if d == 8 {
        Key::Num8
    } else {
        Key::Num9
    }
}

/// The smallest digit from `d` on whose key was pressed.
pub open spec fn first_digit_from(i: KeyInput, d: nat) -> Option<nat>
    decreases 10 - d,
{
    if d >= 10 {
        None
    } else if i.has(digit_key(d)) {
        Some(d)
    } else {
        first_digit_from(i, d + 1)
    }
}

/// The count after a digit key, when a digit key counts: not with Ctrl, Alt
/// or Shift, and `0` only after another digit. The count stops growing past
/// five digits.
pub open spec fn number_input(i: KeyInput, count: Option<usize>) -> Option<Option<usize>> {
    if i.modifiers.ctrl || i.modifiers.alt || i.modifiers.shift {
        None
    } else {
        match first_digit_from(i, 0) {
            None => None,
            Some(d) => if d == 0 && count is None {
                None
            } else {
                let cur: int = match count {
                    Some(n) => n as int,
                    None => 0,
                };
                Some(
                    if cur <= 9999 {
                        Some((cur * 10 + d) as usize)
                    } else {
                        count
                    },
                )
            },
        }
    }
}

/// The prefix keys and count forgotten.
pub open spec fn cmd_cleared(s: GridView) -> GridView {
    GridView { keys: seq![], count: None, ..s }
}

/// The repeat count of a command (1 without a count).
pub open spec fn repeat(s: GridView) -> nat {
    match s.count {
        Some(n) => n as nat,
        None => 1,
    }
}

/// Half a page: half the rows shown, at least one.
pub open spec fn half_page(max_row: nat) -> nat {
    if max_row / 2 >= 1 {
        max_row / 2
    } else {
        1
    }
}

/// The cursor moved up by `d` rows (stopping at the first), scrolled to.
pub open spec fn page_up(s: GridView, d: nat) -> GridView {
    let r = (if s.cursor.0 >= d { s.cursor.0 - d } else { 0 }) as usize;
    GridView { cursor: (r, s.cursor.1), scroll_to_row: Some(r), ..s }
}

/// The cursor moved down by `d` rows (stopping at the last), scrolled to.
pub open spec fn page_down(s: GridView, d: nat, max_row: nat) -> GridView {
    let last: int = if max_row == 0 { 0 } else { max_row - 1 };
    let r = (if s.cursor.0 + d <= last { s.cursor.0 + d } else { last }) as usize;
    GridView { cursor: (r, s.cursor.1), scroll_to_row: Some(r), ..s }
}

/// The current row marked for deletion, with the message
/// `<prefix><row number><suffix>`, unless it is marked already.
pub open spec fn mark_row(s: GridView, a: ActionsView, prefix: Seq<char>, suffix: Seq<char>) -> (GridView, ActionsView) {
    let r = s.cursor.0;
    if s.rows_to_delete.contains(r) {
        (s, a)
    } else {
        (
            GridView { rows_to_delete: s.rows_to_delete.push(r), ..s },
            with_message(a, prefix + decimal(r as nat + 1) + suffix),
        )
    }
}

/// The marks without `x`.
pub open spec fn without(v: Seq<usize>, x: usize) -> Seq<usize>
    decreases v.len(),
{
    if v.len() == 0 {
        v
    } else if v.last() == x {
        without(v.drop_last(), x)
    } else {
        without(v.drop_last(), x).push(v.last())
    }
}

/// The index of the first edit of `cell`, or the count.
pub open spec fn cell_index(m: Seq<((usize, usize), Seq<char>)>, cell: (usize, usize), j: int) -> int
    decreases m.len() - j,
{
    if j >= m.len() {
        m.len() as int
    } else if m[j].0 == cell {
        j
    } else {
        cell_index(m, cell, j + 1)
    }
}

/// The edits with `cell` set to `v`: its entry replaced, or a new entry at
/// the end.
pub open spec fn cells_insert(m: Seq<((usize, usize), Seq<char>)>, cell: (usize, usize), v: Seq<char>) -> Seq<((usize, usize), Seq<char>)> {
    let j = cell_index(m, cell, 0);
    if j < m.len() {
        m.update(j, (cell, v))
    } else {
        m.push((cell, v))
    }
}

/// The edits without the entry of `cell`.
pub open spec fn cells_remove(m: Seq<((usize, usize), Seq<char>)>, cell: (usize, usize)) -> Seq<((usize, usize), Seq<char>)> {
    let j = cell_index(m, cell, 0);
    if j < m.len() {
        m.remove(j)
    } else {
        m
    }
}

/// The edited text of `cell`, if it was edited.
pub open spec fn cell_edit(m: Seq<((usize, usize), Seq<char>)>, cell: (usize, usize)) -> Option<Seq<char>> {
    let j = cell_index(m, cell, 0);
    if j < m.len() {
        Some(m[j].1)
    } else {
        None
    }
}

/// The shown cell under `cell`, if there is one.
pub open spec fn shown_cell(ctx: GridContext, cell: (usize, usize)) -> Option<Seq<char>> {
    if cell.0 < ctx.rows.len() && cell.1 < ctx.rows[cell.0 as int].len() {
        Some(ctx.rows[cell.0 as int][cell.1 as int])
    } else {
        None
    }
}

/// Insert mode on the cursor's cell, editing its edited text or else its
/// value, when the cell is shown.
pub open spec fn insert_mode(s: GridView, ctx: GridContext) -> GridView {
    let t = GridView { mode: GridMode::Insert, editing_cell: Some(s.cursor), ..s };
    match shown_cell(ctx, s.cursor) {
        Some(v) => GridView {
            edit_text: match cell_edit(s.modified_cells, s.cursor) {
                Some(e) => e,
                None => v,
            },
            original_value: v,
            ..t
        },
        None => t,
    }
}

/// A row of `n` empty cells.
pub open spec fn empty_row(n: nat) -> Seq<Seq<char>> {
    Seq::new(n, |k: int| Seq::<char>::empty())
}

/// Whether some filter is on `column`.
pub open spec fn has_filter_on(fs: Seq<FilterView>, column: Seq<char>) -> bool {
    exists|k: int| 0 <= k < fs.len() && (#[trigger] fs[k]).column == column
}

// ---------------------------------------------------------------------------
// Normal mode
// ---------------------------------------------------------------------------

/// Movement keys: `hjkl` and arrows (with a count; at an edge they hand the
/// focus on), `w`/`b`, `e`, `0`, `$`, `^`, Home/End, half pages.
pub open spec fn nav_keys(s: GridView, a: ActionsView, i: KeyInput, ctx: GridContext) -> Option<(GridView, ActionsView)> {
    let e = s.keys.len() == 0;
    let m = i.modifiers;
    let max_row = ctx.rows.len();
    let max_col = ctx.columns.len();
    let n = repeat(s);
    let half = half_page(max_row);
    if (i.has(Key::H) || i.has(Key::ArrowLeft)) && e {
        Some(
            if s.cursor.1 == 0 {
                (cmd_cleared(s), ActionsView { focus_transfer: Some(FocusTransfer::ToSidebar), ..a })
            } else {
                (cmd_cleared(moved_n(s, 0, -1, n, max_row, max_col)), a)
            },
        )
    } else if (i.has(Key::J) || i.has(Key::ArrowDown)) && e {
        Some(
            if s.cursor.0 + 1 >= max_row {
                (cmd_cleared(s), ActionsView { focus_transfer: Some(FocusTransfer::ToSqlEditor), ..a })
            } else {
                (cmd_cleared(moved_n(s, 1, 0, n, max_row, max_col)), a)
            },
        )
    } else if (i.has(Key::K) || i.has(Key::ArrowUp)) && e {
        Some(
            if s.cursor.0 == 0 {
                (cmd_cleared(s), ActionsView { focus_transfer: Some(FocusTransfer::ToQueryTabs), ..a })
            } else {
                (cmd_cleared(moved_n(s, -1, 0, n, max_row, max_col)), a)
            },
        )
    } else if (i.has(Key::L) || i.has(Key::ArrowRight)) && e {
        Some((cmd_cleared(moved_n(s, 0, 1, n, max_row, max_col)), a))
    } else if i.has(Key::W) && !m.ctrl && e {
        Some(
            if s.cursor.1 + 1 >= max_col {
                (s, ActionsView { focus_transfer: Some(FocusTransfer::ToSqlEditor), ..a })
            } else {
                (moved(s, 0, 1, max_row, max_col), a)
            },
        )
    } else if i.has(Key::B) && !m.ctrl && e {
        Some(
            if s.cursor.1 == 0 {
                (s, ActionsView { focus_transfer: Some(FocusTransfer::ToSidebar), ..a })
            } else {
                (moved(s, 0, -1, max_row, max_col), a)
            },
        )
    } else if i.has(Key::E) && !m.ctrl && e {
        Some((at_line_end(s, max_col), a))
    } else if i.has(Key::Num0) && s.count is None && e {
        Some((at_line_start(s), a))
    } else if i.has(Key::Num4) && m.shift && e {
        Some((at_line_end(s, max_col), a))
    } else if i.has(Key::Num6) && m.shift && e {
        Some((at_line_start(s), a))
    } else if i.has(Key::Home) {
        Some(
            (
                if m.ctrl {
                    at_file_start(s)
                } else {
                    at_line_start(s)
                },
                a,
            ),
        )
    } else if i.has(Key::End) {
        Some(
            (
                if m.ctrl {
                    at_file_end(s, max_row)
                } else {
                    at_line_end(s, max_col)
                },
                a,
            ),
        )
    } else if m.ctrl && i.has(Key::U) {
        Some((cmd_cleared(page_up(s, half * n)), a))
    } else if m.ctrl && i.has(Key::D) {
        Some((cmd_cleared(page_down(s, half * n, max_row)), a))
    } else if i.has(Key::PageUp) {
        Some((cmd_cleared(page_up(s, half * n)), a))
    } else if i.has(Key::PageDown) {
        Some((cmd_cleared(page_down(s, half * n, max_row)), a))
    } else {
        None
    }
}

/// Prefixed commands: `gg` `G` `ge` `gh` `gl`, `zz`/`zc` `zt` `zb`,
/// Space-`d`, `:w` `:q`, `dd`, `yy`.
pub open spec fn prefix_keys(s: GridView, a: ActionsView, i: KeyInput, ctx: GridContext) -> Option<(GridView, ActionsView)> {
    let e = s.keys.len() == 0;
    let m = i.modifiers;
    let max_row = ctx.rows.len();
    let max_col = ctx.columns.len();
    let k = s.keys;
    if i.has(Key::G) && !m.shift && k == seq!['g'] {
        Some((cmd_cleared(at_file_start(s)), a))
    } else if i.has(Key::G) && !m.shift && e {
        Some((GridView { keys: seq!['g'], ..s }, a))
    } else if i.has(Key::G) && m.shift {
        Some((cmd_cleared(at_file_end(s, max_row)), a))
    } else if i.has(Key::E) && k == seq!['g'] {
        Some((cmd_cleared(at_file_end(s, max_row)), a))
    } else if i.has(Key::H) && k == seq!['g'] {
        Some((cmd_cleared(at_line_start(s)), a))
    } else if i.has(Key::L) && k == seq!['g'] {
        Some((cmd_cleared(at_line_end(s, max_col)), a))
    } else if i.has(Key::Z) && !m.shift && e {
        Some((GridView { keys: seq!['z'], ..s }, a))
    } else if k == seq!['z'] && (i.has(Key::Z) || i.has(Key::C)) {
        Some(
            (
                cmd_cleared(GridView { scroll_to_row: Some(s.cursor.0), ..s }),
                ActionsView { scroll_to_center: true, ..with_message(a, "滚动到中央 (zz)"@) },
            ),
        )
    } else if k == seq!['z'] && i.has(Key::T) {
        Some(
            (
                cmd_cleared(GridView { scroll_to_row: Some(s.cursor.0), ..s }),
                ActionsView { scroll_to_top: true, ..with_message(a, "滚动到顶部 (zt)"@) },
            ),
        )
    } else if k == seq!['z'] && i.has(Key::B) {
        Some(
            (
                cmd_cleared(GridView { scroll_to_row: Some(s.cursor.0), ..s }),
                ActionsView { scroll_to_bottom: true, ..with_message(a, "滚动到底部 (zb)"@) },
            ),
        )
    } else if i.has(Key::Space) && e {
        Some((GridView { keys: seq![' '], ..s }, a))
    } else if k == seq![' '] && i.has(Key::D) {
        let (s2, a2) = mark_row(s, a, "标记删除第 "@, " 行 (Space+d)"@);
        Some((cmd_cleared(s2), a2))
    } else if i.has(Key::Semicolon) && m.shift && e {
        Some((GridView { keys: seq![':'], ..s }, a))
    } else if k == seq![':'] && i.has(Key::W) {
        Some(
            (cmd_cleared(GridView { pending_save: true, ..s }), with_message(a, "保存修改 (:w)"@)),
        )
    } else if k == seq![':'] && i.has(Key::Q) {
        Some(
            if has_edits(s) {
                (cmd_cleared(edits_cleared(s)), with_message(a, "已放弃所有修改 (:q)"@))
            } else {
                (cmd_cleared(s), a)
            },
        )
    } else if i.has(Key::D) && !m.ctrl && e {
        Some((GridView { keys: seq!['d'], ..s }, a))
    } else if k == seq!['d'] && i.has(Key::D) {
        let (s2, a2) = mark_row(s, a, "已标记删除第 "@, " 行 (dd)"@);
        Some((cmd_cleared(s2), a2))
    } else if i.has(Key::Y) && !m.ctrl && e {
        Some((GridView { keys: seq!['y'], ..s }, a))
    } else if k == seq!['y'] && i.has(Key::Y) {
        Some(
            if s.cursor.0 < ctx.rows.len() {
                (
                    cmd_cleared(
                        GridView {
                            clipboard: Some(join(ctx.rows[s.cursor.0 as int], "\t"@)),
                            ..s
                        },
                    ),
                    with_message(a, "已复制第 "@ + decimal(s.cursor.0 as nat + 1) + " 行 (yy)"@),
                )
            } else {
                (cmd_cleared(s), a)
            },
        )
    } else {
        None
    }
}

/// Single-key commands: paste, undo, unmark, discard, save, refresh, the
/// mode changes, filters, new rows, Escape.
pub open spec fn edit_keys(s: GridView, a: ActionsView, i: KeyInput, ctx: GridContext) -> (GridView, ActionsView) {
    let e = s.keys.len() == 0;
    let m = i.modifiers;
    let max_row = ctx.rows.len();
    let max_col = ctx.columns.len();
    let c = s.cursor;
    if i.has(Key::P) && e {
        match s.clipboard {
            Some(t) => (
                GridView { modified_cells: cells_insert(s.modified_cells, c, t), ..s },
                with_message(a, "已粘贴 (p)"@),
            ),
            None => (s, a),
        }
    } else if i.has(Key::U) && !m.shift && !m.ctrl && e {
        if cell_edit(s.modified_cells, c) is Some {
            (
                GridView { modified_cells: cells_remove(s.modified_cells, c), ..s },
                with_message(a, "已撤销修改 (u)"@),
            )
        } else {
            (s, a)
        }
    } else if i.has(Key::U) && m.shift && e {
        if s.rows_to_delete.contains(c.0) {
            (
                GridView { rows_to_delete: without(s.rows_to_delete, c.0), ..s },
                with_message(a, "已取消删除标记 (U)"@),
            )
        } else {
            (s, a)
        }
    } else if i.has(Key::Q) && !m.ctrl && e {
        if has_edits(s) {
            (edits_cleared(s), with_message(a, "已放弃所有修改 (q)"@))
        } else {
            (s, a)
        }
    } else if m.ctrl && !m.shift && i.has(Key::S) {
        (GridView { pending_save: true, ..s }, with_message(a, "保存修改 (Ctrl+S)"@))
    } else if m.ctrl && i.has(Key::R) {
        (s, ActionsView { refresh_requested: true, ..with_message(a, "刷新表格数据 (Ctrl+R)"@) })
    } else if i.has(Key::I) && !m.ctrl && e {
        (insert_mode(s, ctx), a)
    } else if i.has(Key::A) && !m.ctrl && e {
        (insert_mode(s, ctx), a)
    } else if i.has(Key::C) && !m.ctrl && e {
        let t = GridView { mode: GridMode::Insert, editing_cell: Some(c), edit_text: seq![], ..s };
        (
            match shown_cell(ctx, c) {
                Some(v) => GridView { original_value: v, ..t },
                None => t,
            },
            with_message(a, "修改单元格 (c)"@),
        )
    } else if i.has(Key::R) && !m.ctrl && e {
        (
            GridView {
                mode: GridMode::Insert,
                editing_cell: Some(c),
                edit_text: seq![],
                original_value: seq![],
                ..s
            },
            a,
        )
    } else if i.has(Key::V) && !m.shift && e {
        (GridView { mode: GridMode::Select, select_anchor: Some(c), ..s }, a)
    } else if i.has(Key::X) && !m.shift && e {
        (
            GridView {
                mode: GridMode::Select,
                select_anchor: Some((c.0, 0)),
                cursor: (c.0, (if max_col == 0 { 0 } else { max_col - 1 }) as usize),
                ..s
            },
            with_message(a, "选择整行 (x)"@),
        )
    } else if i.has(Key::Num5) && m.shift && e {
        (
            GridView {
                mode: GridMode::Select,
                select_anchor: Some((0, 0)),
                cursor: (
                    (if max_row == 0 { 0 } else { max_row - 1 }) as usize,
                    (if max_col == 0 { 0 } else { max_col - 1 }) as usize,
                ),
                ..s
            },
            with_message(a, "选择全部 (%)"@),
        )
    } else if i.has(Key::Semicolon) && !m.shift && e {
        (s, a)
    } else if i.has(Key::Slash) && e {
        (s, ActionsView { open_filter_panel: true, ..a })
    } else if i.has(Key::F) && !m.ctrl && e {
        if c.1 < max_col && !has_filter_on(s.filters, ctx.columns[c.1 as int]) {
            let name = ctx.columns[c.1 as int];
            (
                GridView { filters: s.filters.push(fresh_filter(name)), ..s },
                with_message(a, "为列 "@ + name + " 添加筛选 (f)"@),
            )
        } else {
            (s, a)
        }
    } else if i.has(Key::O) && !m.shift && e {
        let rows = s.new_rows.push(empty_row(max_col));
        let r = (ctx.result_rows + rows.len() - 1) as usize;
        (
            GridView { new_rows: rows, cursor: (r, 0), scroll_to_row: Some(r), ..s },
            with_message(a, "已添加新行 (o)"@),
        )
    } else if i.has(Key::O) && m.shift && e {
        let rows = seq![empty_row(max_col)] + s.new_rows;
        let r = ctx.result_rows as usize;
        (
            GridView { new_rows: rows, cursor: (r, 0), scroll_to_row: Some(r), ..s },
            with_message(a, "已在开头添加新行 (O)"@),
        )
    } else if i.has(Key::Escape) {
        if !e || s.count is Some {
            (cmd_cleared(s), a)
        } else if s.filters.len() > 0 {
            (GridView { filters: seq![], ..s }, with_message(a, "已清空筛选条件 (Esc)"@))
        } else {
            (s, a)
        }
    } else {
        (s, a)
    }
}

/// One frame of keys in normal mode: the first group that takes the keys acts.
pub open spec fn normal_step(s: GridView, a: ActionsView, i: KeyInput, ctx: GridContext) -> (GridView, ActionsView) {
    match nav_keys(s, a, i, ctx) {
        Some(r) => r,
        None => match prefix_keys(s, a, i, ctx) {
            Some(r) => r,
            None => edit_keys(s, a, i, ctx),
        },
    }
}

// ---------------------------------------------------------------------------
// Select mode
// ---------------------------------------------------------------------------

/// The cells `(r, c0..=c1)`, left to right.
pub open spec fn row_cells(r: int, c0: int, c1: int) -> Seq<(usize, usize)> {
    Seq::new((if c1 >= c0 { c1 - c0 + 1 } else { 0 }) as nat, |k: int| (r as usize, (c0 + k) as usize))
}

/// The cells of rows `r0..=r1` and columns `c0..=c1`, row by row.
pub open spec fn rect_cells(r0: int, r1: int, c0: int, c1: int) -> Seq<(usize, usize)>
    decreases r1 - r0 + 1,
{
    if r1 < r0 {
        seq![]
    } else {
        rect_cells(r0, r1 - 1, c0, c1) + row_cells(r1, c0, c1)
    }
}

/// The edits with each of `cells` set to the empty text, in order.
pub open spec fn fill_cells(m: Seq<((usize, usize), Seq<char>)>, cells: Seq<(usize, usize)>) -> Seq<((usize, usize), Seq<char>)>
    decreases cells.len(),
{
    if cells.len() == 0 {
        m
    } else {
        cells_insert(fill_cells(m, cells.drop_last()), cells.last(), seq![])
    }
}

/// The shown cells of a row from column `c0` through `c1`, tab-separated.
pub open spec fn row_text(row: Seq<Seq<char>>, c0: int, c1: int) -> Seq<char> {
    if c0 >= row.len() {
        seq![]
    } else {
        join(row.subrange(c0, if c1 + 1 <= row.len() { c1 + 1 } else { row.len() as int }), "\t"@)
    }
}

/// The text copied from rows `r0..=r1`: the shown rows' texts, a line
/// break before each but the first non-empty text.
pub open spec fn yank_text(rows: Seq<Seq<Seq<char>>>, r0: int, r1: int, c0: int, c1: int) -> Seq<char>
    decreases r1 - r0 + 1,
{
    if r1 < r0 {
        seq![]
    } else {
        let acc = yank_text(rows, r0, r1 - 1, c0, c1);
        if 0 <= r1 < rows.len() {
            (if acc.len() > 0 {
                acc + "\n"@
            } else {
                acc
            }) + row_text(rows[r1], c0, c1)
        } else {
            acc
        }
    }
}

/// The number of cells of a rectangle.
pub open spec fn rect_size(r0: int, r1: int, c0: int, c1: int) -> int {
    (r1 - r0 + 1) * (c1 - c0 + 1)
}

/// One frame of keys in select mode: moves extend the selection; `d`, `c`
/// and `y` act on it and leave select mode; `x` widens it to whole rows.
pub open spec fn select_step(s: GridView, a: ActionsView, i: KeyInput, ctx: GridContext) -> (GridView, ActionsView) {
    let max_row = ctx.rows.len();
    let max_col = ctx.columns.len();
    let done = |t: GridView| GridView { mode: GridMode::Normal, select_anchor: None, ..t };
    if i.has(Key::H) || i.has(Key::ArrowLeft) {
        (moved(s, 0, -1, max_row, max_col), a)
    } else if i.has(Key::J) || i.has(Key::ArrowDown) {
        (moved(s, 1, 0, max_row, max_col), a)
    } else if i.has(Key::K) || i.has(Key::ArrowUp) {
        (moved(s, -1, 0, max_row, max_col), a)
    } else if i.has(Key::L) || i.has(Key::ArrowRight) {
        (moved(s, 0, 1, max_row, max_col), a)
    } else if i.has(Key::W) {
        (moved(s, 0, 1, max_row, max_col), a)
    } else if i.has(Key::B) {
        (moved(s, 0, -1, max_row, max_col), a)
    } else if i.has(Key::D) {
        match selection(s) {
            Some(((r0, c0), (r1, c1))) => (
                done(
                    GridView {
                        modified_cells: fill_cells(
                            s.modified_cells,
                            rect_cells(r0 as int, r1 as int, c0 as int, c1 as int),
                        ),
                        ..s
                    },
                ),
                with_message(
                    a,
                    "已清空 "@ + decimal(rect_size(r0 as int, r1 as int, c0 as int, c1 as int) as nat)
                        + " 个单元格 (d)"@,
                ),
            ),
            None => (done(s), a),
        }
    } else if i.has(Key::C) {
        let t = match selection(s) {
            Some(((r0, c0), (r1, c1))) => GridView {
                modified_cells: fill_cells(
                    s.modified_cells,
                    rect_cells(r0 as int, r1 as int, c0 as int, c1 as int),
                ),
                ..s
            },
            None => s,
        };
        (
            GridView {
                mode: GridMode::Insert,
                editing_cell: Some(s.cursor),
                edit_text: seq![],
                original_value: seq![],
                select_anchor: None,
                ..t
            },
            a,
        )
    } else if i.has(Key::Y) {
        match selection(s) {
            Some(((r0, c0), (r1, c1))) => (
                done(
                    GridView {
                        clipboard: Some(
                            yank_text(ctx.rows, r0 as int, r1 as int, c0 as int, c1 as int),
                        ),
                        ..s
                    },
                ),
                with_message(a, "已复制选中内容 (y)"@),
            ),
            None => (done(s), a),
        }
    } else if i.has(Key::X) {
        (
            GridView {
                select_anchor: Some((s.cursor.0, 0)),
                cursor: (s.cursor.0, (if max_col == 0 { 0 } else { max_col - 1 }) as usize),
                ..s
            },
            a,
        )
    } else if i.has(Key::Escape) || (i.has(Key::Semicolon) && !i.modifiers.shift) {
        (cmd_cleared(done(s)), a)
    } else {
        (s, a)
    }
}

// ---------------------------------------------------------------------------
// The whole frame
// ---------------------------------------------------------------------------

/// One frame of keys on the grid. Nothing happens unless the grid has the
/// keyboard, is not editing a cell and shows at least one row and column.
/// A digit extends the count; Enter after a count switches to that query
/// tab; Backspace drops the count's last digit; other keys act by mode.
pub open spec fn keyboard_step(s: GridView, a: ActionsView, i: KeyInput, ctx: GridContext) -> (GridView, ActionsView) {
    if !s.focused || s.mode == GridMode::Insert || ctx.rows.len() == 0 || ctx.columns.len() == 0 {
        (s, a)
    } else {
        match number_input(i, s.count) {
            Some(c) => (GridView { count: c, ..s }, a),
            None => if i.has(Key::Enter) && s.keys.len() == 0 && s.count is Some {
                let n = s.count->0;
                (
                    cmd_cleared(s),
                    if n > 0 {
                        ActionsView {
                            switch_to_tab: Some((n - 1) as usize),
                            ..with_message(a, "切换到查询 "@ + decimal(n as nat))
                        }
                    } else {
                        a
                    },
                )
            } else if i.has(Key::Backspace) && s.count is Some {
                let cur = s.count->0;
                (
                    GridView {
                        count: if cur < 10 {
                            None
                        } else {
                            Some((cur / 10) as usize)
                        },
                        ..s
                    },
                    a,
                )
            } else if s.mode == GridMode::Normal {
                normal_step(s, a, i, ctx)
            } else {
                select_step(s, a, i, ctx)
            },
        }
    }
}

/// In normal mode, pressing only `j` (or only `k`) with no pending prefix
/// moves the cursor down (up) by the count, one without a count, stopping at
/// the last (first) row, keeps the column and forgets the count; on the last
/// (first) row it instead hands the keyboard to the SQL editor (the query
/// tabs).
pub proof fn lemma_vertical_keys_move_by_count(
    s: GridView,
    a: ActionsView,
    i: KeyInput,
    ctx: GridContext,
    down: bool,
)
    requires
        i.pressed@ == seq![if down { Key::J } else { Key::K }],
        !i.modifiers.ctrl && !i.modifiers.alt && !i.modifiers.shift,
        s.focused,
        s.mode == GridMode::Normal,
        s.keys.len() == 0,
        (s.cursor.0 as int) < ctx.rows.len(),
        (s.cursor.1 as int) < ctx.columns.len(),
        ctx.rows.len() <= usize::MAX,
    ensures
        ({
            let (t, b) = keyboard_step(s, a, i, ctx);
            let n = repeat(s);
            let last = ctx.rows.len() - 1;
            if down {
                if s.cursor.0 == last {
                    t == cmd_cleared(s) && b == ActionsView {
                        focus_transfer: Some(FocusTransfer::ToSqlEditor),
                        ..a
                    }
                } else {
                    &&& t.cursor == ((if s.cursor.0 + n <= last { s.cursor.0 + n } else { last }) as usize, s.cursor.1)
                    &&& t.count is None
                    &&& t.keys.len() == 0
                    &&& b == a
                }
            } else {
                if s.cursor.0 == 0 {
                    t == cmd_cleared(s) && b == ActionsView {
                        focus_transfer: Some(FocusTransfer::ToQueryTabs),
                        ..a
                    }
                } else {
                    &&& t.cursor == ((if s.cursor.0 >= n { s.cursor.0 - n } else { 0 }) as usize, s.cursor.1)
                    &&& t.count is None
                    &&& t.keys.len() == 0
                    &&& b == a
                }
            }
        }),
{
    let k = if down { Key::J } else { Key::K };
    assert forall|key: Key| key != k implies !i.has(key) by {
        if i.pressed@.contains(key) {
            let j = choose|j: int| 0 <= j < i.pressed@.len() && i.pressed@[j] == key;
            assert(i.pressed@[j] == k);
        }
    }
    assert(i.pressed@[0] == k);
    assert(i.has(k));
    reveal_with_fuel(first_digit_from, 11);
    assert(first_digit_from(i, 0) is None);
    lemma_counted_vertical_move(s, down, repeat(s), ctx.rows.len(), ctx.columns.len());
}

/// The machine limits the handler needs: row numbers one past the cursor,
/// a half-page move, one more new row and the size of the selection fit in
/// `usize`.
pub open spec fn keyboard_fits(s: GridView, ctx: GridContext) -> bool {
    &&& s.cursor.0 < usize::MAX
    &&& s.cursor.0 + half_page(ctx.rows.len()) * repeat(s) <= usize::MAX
    &&& ctx.result_rows + s.new_rows.len() + 1 <= usize::MAX
    &&& (selection(s) matches Some(((r0, c0), (r1, c1))) ==> rect_size(
        r0 as int,
        r1 as int,
        c0 as int,
        c1 as int,
    ) <= usize::MAX)
}

// ---------------------------------------------------------------------------
// Invariants of the keys
// ---------------------------------------------------------------------------

/// No row is marked twice.
pub open spec fn marks_unique(v: Seq<usize>) -> bool {
    forall|i: int, j: int| 0 <= i < j < v.len() ==> v[i] != v[j]
}

/// No cell has two edits.
pub open spec fn cells_unique(m: Seq<((usize, usize), Seq<char>)>) -> bool {
    forall|i: int, j: int| 0 <= i < j < m.len() ==> m[i].0 != m[j].0
}

/// What a frame of keys keeps of the state besides the cursor and scrolling.
pub open spec fn same_but_cursor(s: GridView, t: GridView) -> bool {
    t == GridView { cursor: t.cursor, scroll_to_row: t.scroll_to_row, ..s }
}

proof fn lemma_moved_n_frame(s: GridView, dr: int, dc: int, n: nat, max_row: nat, max_col: nat)
    ensures
        same_but_cursor(s, moved_n(s, dr, dc, n, max_row, max_col)),
    decreases n,
{
    if n > 0 {
        lemma_moved_n_frame(s, dr, dc, (n - 1) as nat, max_row, max_col);
    }
}

proof fn lemma_cell_index(m: Seq<((usize, usize), Seq<char>)>, cell: (usize, usize), j: int)
    requires
        0 <= j <= m.len(),
    ensures
        j <= cell_index(m, cell, j) <= m.len(),
        cell_index(m, cell, j) < m.len() ==> m[cell_index(m, cell, j)].0 == cell,
        forall|k: int| j <= k < cell_index(m, cell, j) ==> (#[trigger] m[k]).0 != cell,
    decreases m.len() - j,
{
    if j < m.len() && m[j].0 != cell {
        lemma_cell_index(m, cell, j + 1);
    }
}

proof fn lemma_cell_index_is(m: Seq<((usize, usize), Seq<char>)>, cell: (usize, usize), k: int, j: int)
    requires
        0 <= j <= k <= m.len(),
        forall|i: int| j <= i < k ==> (#[trigger] m[i]).0 != cell,
        k < m.len() ==> m[k].0 == cell,
    ensures
        cell_index(m, cell, j) == k,
    decreases k - j,
{
    if j < k {
        lemma_cell_index_is(m, cell, k, j + 1);
    }
}

/// What a read gives back of a write: after a cell's edit is set, the cell
/// reads as the new text, and every other cell reads as before.
pub proof fn lemma_edit_read_after_write(
    m: Seq<((usize, usize), Seq<char>)>,
    cell: (usize, usize),
    v: Seq<char>,
    other: (usize, usize),
)
    ensures
        cell_edit(cells_insert(m, cell, v), cell) == Some(v),
        other != cell ==> cell_edit(cells_insert(m, cell, v), other) == cell_edit(m, other),
{
    lemma_cell_index(m, cell, 0);
    lemma_cell_index(m, other, 0);
    let j = cell_index(m, cell, 0);
    let m2 = cells_insert(m, cell, v);
    let k = cell_index(m, other, 0);
    if j < m.len() {
        assert forall|i: int| 0 <= i < m2.len() implies (#[trigger] m2[i]).0 == m[i].0 by {}
        lemma_cell_index_is(m2, cell, j, 0);
        if other != cell {
            assert(k != j || k == m.len());
            lemma_cell_index_is(m2, other, k, 0);
        }
    } else {
        lemma_cell_index_is(m2, cell, j, 0);
        if other != cell {
            if k < m.len() {
                lemma_cell_index_is(m2, other, k, 0);
            } else {
                lemma_cell_index_is(m2, other, m2.len() as int, 0);
            }
        }
    }
}

/// Undoing a cell's edit forgets it: the cell reads as unedited, and every
/// other cell reads as before (no cell has two edits).
pub proof fn lemma_revert_forgets(
    m: Seq<((usize, usize), Seq<char>)>,
    cell: (usize, usize),
    other: (usize, usize),
)
    requires
        cells_unique(m),
    ensures
        cell_edit(cells_remove(m, cell), cell) is None,
        other != cell ==> cell_edit(cells_remove(m, cell), other) == cell_edit(m, other),
{
    lemma_cell_index(m, cell, 0);
    lemma_cell_index(m, other, 0);
    let j = cell_index(m, cell, 0);
    let m2 = cells_remove(m, cell);
    let k = cell_index(m, other, 0);
    if j < m.len() {
        assert forall|i: int| 0 <= i < m2.len() implies (#[trigger] m2[i]) == (if i < j {
            m[i]
        } else {
            m[i + 1]
        }) by {}
        assert forall|i: int| 0 <= i < m2.len() implies (#[trigger] m2[i]).0 != cell by {
            if i < j {
            } else {
                assert(m[j].0 != m[i + 1].0);
            }
        }
        lemma_cell_index_is(m2, cell, m2.len() as int, 0);
        if other != cell {
            let k2 = if k < j { k } else if k == m.len() { m2.len() as int } else { k - 1 };
            lemma_cell_index_is(m2, other, k2, 0);
        }
    } else {
        lemma_cell_index_is(m2, cell, m2.len() as int, 0);
    }
}

/// Undoing a row's deletion mark (`U`, or the row menu) forgets it: the row is
/// no longer marked, and every other row keeps its mark or its lack of one.
pub proof fn lemma_unmark_forgets(v: Seq<usize>, x: usize, other: usize)
    ensures
        !without(v, x).contains(x),
        other != x ==> (without(v, x).contains(other) <==> v.contains(other)),
    decreases v.len(),
{
    if v.len() > 0 {
        lemma_unmark_forgets(v.drop_last(), x, other);
        let w = without(v.drop_last(), x);
        if v.last() == x {
            assert(v.contains(other) <==> (v.drop_last().contains(other) || v.last() == other)) by {
                if v.contains(other) {
                    let k = choose|k: int| 0 <= k < v.len() && v[k] == other;
                    if k < v.len() - 1 {
                        assert(v.drop_last()[k] == other);
                    }
                }
                if v.drop_last().contains(other) {
                    let k = choose|k: int| 0 <= k < v.drop_last().len() && v.drop_last()[k] == other;
                    assert(v[k] == other);
                }
            }
        } else {
            assert(w.push(v.last()).contains(other) <==> (w.contains(other) || v.last() == other)) by {
                if w.push(v.last()).contains(other) {
                    let k = choose|k: int| 0 <= k < w.push(v.last()).len() && w.push(v.last())[k] == other;
                    if k < w.len() {
                        assert(w[k] == other);
                    }
                }
                if w.contains(other) {
                    let k = choose|k: int| 0 <= k < w.len() && w[k] == other;
                    assert(w.push(v.last())[k] == other);
                }
                if v.last() == other {
                    assert(w.push(v.last())[w.len() as int] == other);
                }
            }
            assert(!w.push(v.last()).contains(x)) by {
                if w.push(v.last()).contains(x) {
                    let k = choose|k: int| 0 <= k < w.push(v.last()).len() && w.push(v.last())[k] == x;
                    if k < w.len() {
                        assert(w[k] == x);
                    }
                }
            }
            assert(v.contains(other) <==> (v.drop_last().contains(other) || v.last() == other)) by {
                if v.contains(other) {
                    let k = choose|k: int| 0 <= k < v.len() && v[k] == other;
                    if k < v.len() - 1 {
                        assert(v.drop_last()[k] == other);
                    }
                }
                if v.drop_last().contains(other) {
                    let k = choose|k: int| 0 <= k < v.drop_last().len() && v.drop_last()[k] == other;
                    assert(v[k] == other);
                }
                if v.last() == other {
                    assert(v[v.len() - 1] == other);
                }
            }
        }
    }
}

pub(crate) proof fn lemma_cells_insert_unique(m: Seq<((usize, usize), Seq<char>)>, cell: (usize, usize), v: Seq<char>)
    requires
        cells_unique(m),
    ensures
        cells_unique(cells_insert(m, cell, v)),
{
    lemma_cell_index(m, cell, 0);
}

pub(crate) proof fn lemma_cells_remove_unique(m: Seq<((usize, usize), Seq<char>)>, cell: (usize, usize))
    requires
        cells_unique(m),
    ensures
        cells_unique(cells_remove(m, cell)),
{
    lemma_cell_index(m, cell, 0);
    let j = cell_index(m, cell, 0);
    if j < m.len() {
        let r = m.remove(j);
        assert forall|a: int, b: int| 0 <= a < b < r.len() implies r[a].0 != r[b].0 by {
            let a2 = if a < j { a } else { a + 1 };
            let b2 = if b < j { b } else { b + 1 };
            assert(r[a] == m[a2]);
            assert(r[b] == m[b2]);
        }
    }
}

proof fn lemma_fill_unique(m: Seq<((usize, usize), Seq<char>)>, cells: Seq<(usize, usize)>)
    requires
        cells_unique(m),
    ensures
        cells_unique(fill_cells(m, cells)),
    decreases cells.len(),
{
    if cells.len() > 0 {
        lemma_fill_unique(m, cells.drop_last());
        lemma_cells_insert_unique(fill_cells(m, cells.drop_last()), cells.last(), seq![]);
    }
}

pub(crate) proof fn lemma_without_unique(v: Seq<usize>, x: usize)
    requires
        marks_unique(v),
    ensures
        marks_unique(without(v, x)),
        forall|k: int| 0 <= k < without(v, x).len() ==> v.contains(#[trigger] without(v, x)[k]),
    decreases v.len(),
{
    if v.len() > 0 {
        let d = v.drop_last();
        assert(marks_unique(d));
        lemma_without_unique(d, x);
        let w = without(d, x);
        if v.last() != x {
            assert(!w.contains(v.last())) by {
                if w.contains(v.last()) {
                    let k = choose|k: int| 0 <= k < w.len() && w[k] == v.last();
                    assert(d.contains(w[k]));
                    let k2 = choose|k2: int| 0 <= k2 < d.len() && d[k2] == w[k];
                    assert(v[k2] == v[v.len() - 1]);
                }
            }
            assert forall|k: int| 0 <= k < without(v, x).len() implies v.contains(
                #[trigger] without(v, x)[k],
            ) by {
                if k < w.len() {
                    assert(d.contains(w[k]));
                    let k2 = choose|k2: int| 0 <= k2 < d.len() && d[k2] == w[k];
                    assert(v[k2] == w[k]);
                } else {
                    assert(v[v.len() - 1] == v.last());
                }
            }
        } else {
            assert forall|k: int| 0 <= k < without(v, x).len() implies v.contains(
                #[trigger] without(v, x)[k],
            ) by {
                assert(d.contains(w[k]));
                let k2 = choose|k2: int| 0 <= k2 < d.len() && d[k2] == w[k];
                assert(v[k2] == w[k]);
            }
        }
    }
}

proof fn lemma_mark_row_unique(s: GridView, a: ActionsView, prefix: Seq<char>, suffix: Seq<char>)
    requires
        marks_unique(s.rows_to_delete),
    ensures
        marks_unique(mark_row(s, a, prefix, suffix).0.rows_to_delete),
        mark_row(s, a, prefix, suffix).0.modified_cells == s.modified_cells,
{
}

/// Movement keys change only the cursor and scrolling.
proof fn lemma_nav_keys_frame(s: GridView, a: ActionsView, i: KeyInput, ctx: GridContext)
    ensures
        nav_keys(s, a, i, ctx) matches Some(r) ==> r.0.rows_to_delete == s.rows_to_delete
            && r.0.modified_cells == s.modified_cells,
{
    let n = repeat(s);
    let max_row = ctx.rows.len();
    let max_col = ctx.columns.len();
    lemma_moved_n_frame(s, 0, -1, n, max_row, max_col);
    lemma_moved_n_frame(s, 1, 0, n, max_row, max_col);
    lemma_moved_n_frame(s, -1, 0, n, max_row, max_col);
    lemma_moved_n_frame(s, 0, 1, n, max_row, max_col);
}

/// A row is never marked for deletion twice, and a cell never has two
/// pending edits, whatever keys are pressed: each frame keeps both.
pub proof fn lemma_keys_keep_edits_unique(s: GridView, a: ActionsView, i: KeyInput, ctx: GridContext)
    requires
        marks_unique(s.rows_to_delete),
        cells_unique(s.modified_cells),
    ensures
        marks_unique(keyboard_step(s, a, i, ctx).0.rows_to_delete),
        cells_unique(keyboard_step(s, a, i, ctx).0.modified_cells),
{
    lemma_nav_keys_frame(s, a, i, ctx);
    lemma_mark_row_unique(s, a, "标记删除第 "@, " 行 (Space+d)"@);
    lemma_mark_row_unique(s, a, "已标记删除第 "@, " 行 (dd)"@);
    lemma_without_unique(s.rows_to_delete, s.cursor.0);
    lemma_cells_remove_unique(s.modified_cells, s.cursor);
    match s.clipboard {
        Some(t) => lemma_cells_insert_unique(s.modified_cells, s.cursor, t),
        None => {},
    }
    match selection(s) {
        Some(((r0, c0), (r1, c1))) => lemma_fill_unique(
            s.modified_cells,
            rect_cells(r0 as int, r1 as int, c0 as int, c1 as int),
        ),
        None => {},
    }
}

/// Escape always leaves select mode, drops the selection and forgets the
/// typed prefix and count.
pub proof fn lemma_escape_leaves_select_mode(s: GridView, a: ActionsView, i: KeyInput, ctx: GridContext)
    requires
        s.focused,
        s.mode == GridMode::Select,
        ctx.rows.len() > 0,
        ctx.columns.len() > 0,
        i.has(Key::Escape),
        i.pressed@.len() == 1,
    ensures
        keyboard_step(s, a, i, ctx).0 == cmd_cleared(
            GridView { mode: GridMode::Normal, select_anchor: None, ..s },
        ),
        keyboard_step(s, a, i, ctx).1 == a,
{
    assert(i.pressed@ == seq![Key::Escape]);
    reveal_with_fuel(first_digit_from, 11);
}

// ---------------------------------------------------------------------------
// Building blocks
// ---------------------------------------------------------------------------

/// The position of the edit of `cell` (see `cell_index`).
fn cell_position(m: &Vec<((usize, usize), String)>, cell: (usize, usize)) -> (j: usize)
    ensures
        j == cell_index(cell_views(m@), cell, 0),
{
    let ghost cv = cell_views(m@);
    let mut j: usize = 0;
    while j < m.len()
        invariant
            j <= m@.len(),
            cv == cell_views(m@),
            cell_index(cv, cell, 0) == cell_index(cv, cell, j as int),
        decreases m@.len() - j,
    {
        let k = m[j].0;
        assert(cv[j as int].0 == k);
        if k.0 == cell.0 && k.1 == cell.1 {
            return j;
        }
        j = j + 1;
    }
    j
}

/// Sets the edit of `cell` (see `cells_insert`).
pub(crate) fn cells_insert_exec(m: &mut Vec<((usize, usize), String)>, cell: (usize, usize), v: String)
    ensures
        cell_views(final(m)@) == cells_insert(cell_views(old(m)@), cell, v@),
{
    let j = cell_position(m, cell);
    let ghost vv = v@;
    if j < m.len() {
        m.set(j, (cell, v));
        assert(cell_views(m@) =~= cell_views(old(m)@).update(j as int, (cell, vv)));
    } else {
        m.push((cell, v));
        assert(cell_views(m@) =~= cell_views(old(m)@).push((cell, vv)));
    }
}

/// Removes the edit of `cell`; whether there was one.
pub(crate) fn cells_remove_exec(m: &mut Vec<((usize, usize), String)>, cell: (usize, usize)) -> (found: bool)
    ensures
        cell_views(final(m)@) == cells_remove(cell_views(old(m)@), cell),
        found == (cell_edit(cell_views(old(m)@), cell) is Some),
{
    let j = cell_position(m, cell);
    if j < m.len() {
        m.remove(j);
        assert(cell_views(m@) =~= cell_views(old(m)@).remove(j as int));
        true
    } else {
        false
    }
}

/// The edited text of `cell`, if any.
pub(crate) fn cell_edit_exec(m: &Vec<((usize, usize), String)>, cell: (usize, usize)) -> (r: Option<String>)
    ensures
        match r {
            Some(t) => cell_edit(cell_views(m@), cell) == Some(t@),
            None => cell_edit(cell_views(m@), cell) is None,
        },
{
    let j = cell_position(m, cell);
    if j < m.len() {
        Some(m[j].1.clone())
    } else {
        None
    }
}

/// Whether `x` is marked.
pub(crate) fn contains_row(v: &Vec<usize>, x: usize) -> (r: bool)
    ensures
        r == v@.contains(x),
{
    let mut j: usize = 0;
    while j < v.len()
        invariant
            j <= v@.len(),
            forall|k: int| 0 <= k < j ==> v@[k] != x,
        decreases v@.len() - j,
    {
        if v[j] == x {
            assert(v@[j as int] == x);
            return true;
        }
        j = j + 1;
    }
    false
}

/// The marks without `x`.
pub(crate) fn without_exec(v: &Vec<usize>, x: usize) -> (r: Vec<usize>)
    ensures
        r@ == without(v@, x),
{
    let mut r: Vec<usize> = Vec::new();
    let mut j: usize = 0;
    while j < v.len()
        invariant
            j <= v@.len(),
            r@ == without(v@.take(j as int), x),
        decreases v@.len() - j,
    {
        assert(v@.take(j + 1).drop_last() == v@.take(j as int));
        if v[j] != x {
            r.push(v[j]);
        }
        j = j + 1;
    }
    assert(v@.take(v@.len() as int) == v@);
    r
}

/// Replaces the message.
fn set_message(actions: &mut DataGridActions, m: String)
    ensures
        final(actions)@ == with_message(old(actions)@, m@),
{
    actions.message = Some(m);
}

/// Forgets the prefix keys and the count.
fn clear_cmd(state: &mut DataGridState)
    ensures
        final(state)@ == cmd_cleared(old(state)@),
{
    state.command_buffer = String::new();
    state.count = None;
}

/// `prefix`, the number, `suffix`.
fn numbered(prefix: &str, n: u64, suffix: &str) -> (r: String)
    ensures
        r@ == prefix@ + decimal(n as nat) + suffix@,
{
    let mut m = String::from_str(prefix);
    push_decimal(&mut m, n);
    m.append(suffix);
    m
}

/// Marks the cursor's row for deletion (see `mark_row`).
fn mark_row_exec(state: &mut DataGridState, actions: &mut DataGridActions, prefix: &str, suffix: &str)
    requires
        old(state).cursor.0 < usize::MAX,
    ensures
        (final(state)@, final(actions)@) == mark_row(old(state)@, old(actions)@, prefix@, suffix@),
{
    let r = state.cursor.0;
    if !contains_row(&state.rows_to_delete, r) {
        state.rows_to_delete.push(r);
        set_message(actions, numbered(prefix, (r + 1) as u64, suffix));
    }
}

/// Moves the cursor `n` times by `(dr, dc)`.
fn move_n(state: &mut DataGridState, dr: isize, dc: isize, n: usize, max_row: usize, max_col: usize)
    requires
        max_row > 0,
        max_col > 0,
    ensures
        final(state)@ == moved_n(old(state)@, dr as int, dc as int, n as nat, max_row as nat, max_col as nat),
{
    let mut k: usize = 0;
    while k < n
        invariant
            k <= n,
            max_row > 0,
            max_col > 0,
            state@ == moved_n(old(state)@, dr as int, dc as int, k as nat, max_row as nat, max_col as nat),
        decreases n - k,
    {
        state.move_cursor(dr, dc, max_row, max_col);
        k = k + 1;
    }
}

// ---------------------------------------------------------------------------
// Normal-mode handlers
// ---------------------------------------------------------------------------

/// The repeat count of the state.
fn repeat_exec(state: &DataGridState) -> (n: usize)
    ensures
        n == repeat(state@),
{
    match state.count {
        Some(c) => c,
        None => 1,
    }
}

/// Movement keys (see `nav_keys`); whether they acted.
#[verifier::rlimit(40)]
fn handle_nav_keys(
    i: &KeyInput,
    state: &mut DataGridState,
    actions: &mut DataGridActions,
    max_row: usize,
    max_col: usize,
    half_page_rows: usize,
    ghost_ctx: Ghost<GridContext>,
) -> (handled: bool)
    requires
        max_row == ghost_ctx@.rows.len(),
        max_col == ghost_ctx@.columns.len(),
        max_row > 0,
        max_col > 0,
        half_page_rows == half_page(max_row as nat),
        keyboard_fits(old(state)@, ghost_ctx@),
    ensures
        handled == nav_keys(old(state)@, old(actions)@, *i, ghost_ctx@) is Some,
        handled ==> (final(state)@, final(actions)@) == nav_keys(
            old(state)@,
            old(actions)@,
            *i,
            ghost_ctx@,
        )->Some_0,
        !handled ==> *final(state) == *old(state) && *final(actions) == *old(actions),
{
    let e = state.command_buffer.as_str().is_empty();
    let m = i.modifiers;
    let n = repeat_exec(state);
    if (i.key_pressed(Key::H) || i.key_pressed(Key::ArrowLeft)) && e {
        if state.cursor.1 == 0 {
            actions.focus_transfer = Some(FocusTransfer::ToSidebar);
        } else {
            move_n(state, 0, -1, n, max_row, max_col);
        }
        clear_cmd(state);
        return true;
    }
    if (i.key_pressed(Key::J) || i.key_pressed(Key::ArrowDown)) && e {
        if state.cursor.0 >= max_row - 1 {
            actions.focus_transfer = Some(FocusTransfer::ToSqlEditor);
        } else {
            move_n(state, 1, 0, n, max_row, max_col);
        }
        clear_cmd(state);
        return true;
    }
    if (i.key_pressed(Key::K) || i.key_pressed(Key::ArrowUp)) && e {
        if state.cursor.0 == 0 {
            actions.focus_transfer = Some(FocusTransfer::ToQueryTabs);
        } else {
            move_n(state, -1, 0, n, max_row, max_col);
        }
        clear_cmd(state);
        return true;
    }
    if (i.key_pressed(Key::L) || i.key_pressed(Key::ArrowRight)) && e {
        move_n(state, 0, 1, n, max_row, max_col);
        clear_cmd(state);
        return true;
    }
    if i.key_pressed(Key::W) && !m.ctrl && e {
        if state.cursor.1 >= max_col - 1 {
            actions.focus_transfer = Some(FocusTransfer::ToSqlEditor);
        } else {
            state.move_cursor(0, 1, max_row, max_col);
        }
        return true;
    }
    if i.key_pressed(Key::B) && !m.ctrl && e {
        if state.cursor.1 == 0 {
            actions.focus_transfer = Some(FocusTransfer::ToSidebar);
        } else {
            state.move_cursor(0, -1, max_row, max_col);
        }
        return true;
    }
    if i.key_pressed(Key::E) && !m.ctrl && e {
        state.goto_line_end(max_col);
        return true;
    }
    if i.key_pressed(Key::Num0) && state.count.is_none() && e {
        state.goto_line_start();
        return true;
    }
    if i.key_pressed(Key::Num4) && m.shift && e {
        state.goto_line_end(max_col);
        return true;
    }
    if i.key_pressed(Key::Num6) && m.shift && e {
        state.goto_line_start();
        return true;
    }
    if i.key_pressed(Key::Home) {
        if m.ctrl {
            state.goto_file_start();
        } else {
            state.goto_line_start();
        }
        return true;
    }
    if i.key_pressed(Key::End) {
        if m.ctrl {
            state.goto_file_end(max_row);
        } else {
            state.goto_line_end(max_col);
        }
        return true;
    }
    let up = (m.ctrl && i.key_pressed(Key::U)) || (!(m.ctrl && i.key_pressed(Key::D))
        && i.key_pressed(Key::PageUp));
    let down = (m.ctrl && i.key_pressed(Key::D)) || i.key_pressed(Key::PageDown);
    if up || down {
        let delta = half_page_rows * n;
        let r = if up {
            if state.cursor.0 >= delta {
                state.cursor.0 - delta
            } else {
                0
            }
        } else if state.cursor.0 + delta <= max_row - 1 {
            state.cursor.0 + delta
        } else {
            max_row - 1
        };
        state.cursor.0 = r;
        state.scroll_to_row = Some(r);
        clear_cmd(state);
        return true;
    }
    false
}

/// Whether the prefix keys are exactly `c`.
fn keys_are(state: &DataGridState, c: char) -> (r: bool)
    ensures
        r == (state@.keys == seq![c]),
{
    let v = chars_of(state.command_buffer.as_str());
    if v.len() == 1 && v[0] == c {
        assert(v@ =~= seq![c]);
        true
    } else {
        false
    }
}

/// Sets the prefix keys to `c`.
fn set_keys(state: &mut DataGridState, c: char)
    ensures
        final(state)@ == (GridView { keys: seq![c], ..old(state)@ }),
{
    let mut k = String::new();
    push_char(&mut k, c);
    assert(k@ =~= seq![c]);
    state.command_buffer = k;
}

/// Prefixed commands (see `prefix_keys`); whether they acted.
fn handle_prefix_keys(
    i: &KeyInput,
    state: &mut DataGridState,
    filtered_rows: &[(usize, &Vec<String>)],
    actions: &mut DataGridActions,
    max_row: usize,
    max_col: usize,
    ghost_ctx: Ghost<GridContext>,
) -> (handled: bool)
    requires
        ghost_ctx@.rows == filtered_rows@.map_values(|p: (usize, &Vec<String>)| views(p.1@)),
        max_row == ghost_ctx@.rows.len(),
        max_col == ghost_ctx@.columns.len(),
        max_row > 0,
        max_col > 0,
        keyboard_fits(old(state)@, ghost_ctx@),
    ensures
        handled == prefix_keys(old(state)@, old(actions)@, *i, ghost_ctx@) is Some,
        handled ==> (final(state)@, final(actions)@) == prefix_keys(
            old(state)@,
            old(actions)@,
            *i,
            ghost_ctx@,
        )->Some_0,
        !handled ==> *final(state) == *old(state) && *final(actions) == *old(actions),
{
    let e = state.command_buffer.as_str().is_empty();
    let m = i.modifiers;
    let g = keys_are(state, 'g');
    let z = keys_are(state, 'z');
    let sp = keys_are(state, ' ');
    let colon = keys_are(state, ':');
    let d = keys_are(state, 'd');
    let y = keys_are(state, 'y');
    if i.key_pressed(Key::G) && !m.shift && g {
        state.goto_file_start();
        clear_cmd(state);
        return true;
    }
    if i.key_pressed(Key::G) && !m.shift && e {
        set_keys(state, 'g');
        return true;
    }
    if i.key_pressed(Key::G) && m.shift {
        state.goto_file_end(max_row);
        clear_cmd(state);
        return true;
    }
    if i.key_pressed(Key::E) && g {
        state.goto_file_end(max_row);
        clear_cmd(state);
        return true;
    }
    if i.key_pressed(Key::H) && g {
        state.goto_line_start();
        clear_cmd(state);
        return true;
    }
    if i.key_pressed(Key::L) && g {
        state.goto_line_end(max_col);
        clear_cmd(state);
        return true;
    }
    if i.key_pressed(Key::Z) && !m.shift && e {
        set_keys(state, 'z');
        return true;
    }
    if z && (i.key_pressed(Key::Z) || i.key_pressed(Key::C)) {
        state.scroll_to_row = Some(state.cursor.0);
        actions.scroll_to_center = true;
        set_message(actions, String::from_str("滚动到中央 (zz)"));
        clear_cmd(state);
        return true;
    }
    if z && i.key_pressed(Key::T) {
        state.scroll_to_row = Some(state.cursor.0);
        actions.scroll_to_top = true;
        set_message(actions, String::from_str("滚动到顶部 (zt)"));
        clear_cmd(state);
        return true;
    }
    if z && i.key_pressed(Key::B) {
        state.scroll_to_row = Some(state.cursor.0);
        actions.scroll_to_bottom = true;
        set_message(actions, String::from_str("滚动到底部 (zb)"));
        clear_cmd(state);
        return true;
    }
    if i.key_pressed(Key::Space) && e {
        set_keys(state, ' ');
        return true;
    }
    if sp && i.key_pressed(Key::D) {
        mark_row_exec(state, actions, "标记删除第 ", " 行 (Space+d)");
        clear_cmd(state);
        return true;
    }
    if i.key_pressed(Key::Semicolon) && m.shift && e {
        set_keys(state, ':');
        return true;
    }
    if colon && i.key_pressed(Key::W) {
        state.pending_save = true;
        set_message(actions, String::from_str("保存修改 (:w)"));
        clear_cmd(state);
        return true;
    }
    if colon && i.key_pressed(Key::Q) {
        if state.has_changes() {
            state.clear_edits();
            set_message(actions, String::from_str("已放弃所有修改 (:q)"));
        }
        clear_cmd(state);
        return true;
    }
    if i.key_pressed(Key::D) && !m.ctrl && e {
        set_keys(state, 'd');
        return true;
    }
    if d && i.key_pressed(Key::D) {
        mark_row_exec(state, actions, "已标记删除第 ", " 行 (dd)");
        clear_cmd(state);
        return true;
    }
    if i.key_pressed(Key::Y) && !m.ctrl && e {
        set_keys(state, 'y');
        return true;
    }
    if y && i.key_pressed(Key::Y) {
        let r = state.cursor.0;
        if r < filtered_rows.len() {
            let row: &Vec<String> = filtered_rows[r].1;
            assert(ghost_ctx@.rows[r as int] == views(row@));
            state.clipboard = Some(join_strings(row, "\t"));
            set_message(actions, numbered("已复制第 ", (r + 1) as u64, " 行 (yy)"));
        }
        clear_cmd(state);
        return true;
    }
    false
}

/// Enters insert mode on the cursor's cell (see `insert_mode`).
fn enter_insert_mode(state: &mut DataGridState, filtered_rows: &[(usize, &Vec<String>)], ghost_ctx: Ghost<GridContext>)
    requires
        ghost_ctx@.rows == filtered_rows@.map_values(|p: (usize, &Vec<String>)| views(p.1@)),
    ensures
        final(state)@ == insert_mode(old(state)@, ghost_ctx@),
{
    state.mode = GridMode::Insert;
    state.editing_cell = Some(state.cursor);
    let (r, c) = state.cursor;
    if r < filtered_rows.len() {
        let row: &Vec<String> = filtered_rows[r].1;
        assert(ghost_ctx@.rows[r as int] == views(row@));
        if c < row.len() {
            let cell = &row[c];
            state.edit_text = match cell_edit_exec(&state.modified_cells, state.cursor) {
                Some(t) => t,
                None => cell.clone(),
            };
            state.original_value = cell.clone();
        }
    }
}

/// Whether some filter is on `column`.
fn has_filter_on_exec(filters: &Vec<ColumnFilter>, column: &str) -> (r: bool)
    ensures
        r == has_filter_on(filters@.map_values(|f: ColumnFilter| filter_view(f)), column@),
{
    let ghost fv = filters@.map_values(|f: ColumnFilter| filter_view(f));
    let mut k: usize = 0;
    while k < filters.len()
        invariant
            k <= filters@.len(),
            fv == filters@.map_values(|f: ColumnFilter| filter_view(f)),
            forall|j: int| 0 <= j < k ==> (#[trigger] fv[j]).column != column@,
        decreases filters@.len() - k,
    {
        if str_eq(filters[k].column.as_str(), column) {
            assert(fv[k as int].column == column@);
            return true;
        }
        k = k + 1;
    }
    false
}

/// A row of `n` empty cells.
pub(crate) fn empty_row_exec(n: usize) -> (r: Vec<String>)
    ensures
        views(r@) == empty_row(n as nat),
{
    let mut r: Vec<String> = Vec::new();
    let mut k: usize = 0;
    while k < n
        invariant
            k <= n,
            views(r@) == empty_row(k as nat),
        decreases n - k,
    {
        let ghost before = r@;
        let x = String::new();
        assert(x@ =~= Seq::<char>::empty());
        r.push(x);
        assert(views(r@) =~= views(before).push(Seq::<char>::empty()));
        k = k + 1;
        assert(views(r@) =~= empty_row(k as nat));
    }
    r
}

/// Single-key commands (see `edit_keys`).
fn handle_edit_keys(
    i: &KeyInput,
    state: &mut DataGridState,
    result: &QueryResult,
    filtered_rows: &[(usize, &Vec<String>)],
    actions: &mut DataGridActions,
    max_row: usize,
    max_col: usize,
    ghost_ctx: Ghost<GridContext>,
)
    requires
        ghost_ctx@ == grid_context(*result, filtered_rows@),
        max_row == ghost_ctx@.rows.len(),
        max_col == ghost_ctx@.columns.len(),
        max_row > 0,
        max_col > 0,
        keyboard_fits(old(state)@, ghost_ctx@),
    ensures
        (final(state)@, final(actions)@) == edit_keys(old(state)@, old(actions)@, *i, ghost_ctx@),
{
    let e = state.command_buffer.as_str().is_empty();
    let m = i.modifiers;
    let c = state.cursor;
    if i.key_pressed(Key::P) && e {
        match &state.clipboard {
            Some(text) => {
                let t = text.clone();
                cells_insert_exec(&mut state.modified_cells, c, t);
                set_message(actions, String::from_str("已粘贴 (p)"));
            },
            None => {},
        }
        return ;
    }
    if i.key_pressed(Key::U) && !m.shift && !m.ctrl && e {
        if cells_remove_exec(&mut state.modified_cells, c) {
            set_message(actions, String::from_str("已撤销修改 (u)"));
        }
        return ;
    }
    if i.key_pressed(Key::U) && m.shift && e {
        if contains_row(&state.rows_to_delete, c.0) {
            state.rows_to_delete = without_exec(&state.rows_to_delete, c.0);
            set_message(actions, String::from_str("已取消删除标记 (U)"));
        }
        return ;
    }
    if i.key_pressed(Key::Q) && !m.ctrl && e {
        if state.has_changes() {
            state.clear_edits();
            set_message(actions, String::from_str("已放弃所有修改 (q)"));
        }
        return ;
    }
    if m.ctrl && !m.shift && i.key_pressed(Key::S) {
        state.pending_save = true;
        set_message(actions, String::from_str("保存修改 (Ctrl+S)"));
        return ;
    }
    if m.ctrl && i.key_pressed(Key::R) {
        actions.refresh_requested = true;
        set_message(actions, String::from_str("刷新表格数据 (Ctrl+R)"));
        return ;
    }
    if i.key_pressed(Key::I) && !m.ctrl && e {
        enter_insert_mode(state, filtered_rows, ghost_ctx);
        return ;
    }
    if i.key_pressed(Key::A) && !m.ctrl && e {
        enter_insert_mode(state, filtered_rows, ghost_ctx);
        return ;
    }
    if i.key_pressed(Key::C) && !m.ctrl && e {
        state.mode = GridMode::Insert;
        state.editing_cell = Some(c);
        state.edit_text = String::new();
        if c.0 < filtered_rows.len() {
            let row: &Vec<String> = filtered_rows[c.0].1;
            assert(ghost_ctx@.rows[c.0 as int] == views(row@));
            if c.1 < row.len() {
                state.original_value = row[c.1].clone();
            }
        }
        set_message(actions, String::from_str("修改单元格 (c)"));
        return ;
    }
    if i.key_pressed(Key::R) && !m.ctrl && e {
        state.mode = GridMode::Insert;
        state.editing_cell = Some(c);
        state.edit_text = String::new();
        state.original_value = String::new();
        return ;
    }
    if i.key_pressed(Key::V) && !m.shift && e {
        state.mode = GridMode::Select;
        state.select_anchor = Some(c);
        return ;
    }
    if i.key_pressed(Key::X) && !m.shift && e {
        state.mode = GridMode::Select;
        state.select_anchor = Some((c.0, 0));
        state.cursor.1 = max_col - 1;
        set_message(actions, String::from_str("选择整行 (x)"));
        return ;
    }
    if i.key_pressed(Key::Num5) && m.shift && e {
        state.mode = GridMode::Select;
        state.select_anchor = Some((0, 0));
        state.cursor = (max_row - 1, max_col - 1);
        set_message(actions, String::from_str("选择全部 (%)"));
        return ;
    }
    if i.key_pressed(Key::Semicolon) && !m.shift && e {
        return ;
    }
    if i.key_pressed(Key::Slash) && e {
        actions.open_filter_panel = true;
        return ;
    }
    if i.key_pressed(Key::F) && !m.ctrl && e {
        if c.1 < result.columns.len() {
            let name = &result.columns[c.1];
            assert(ghost_ctx@.columns[c.1 as int] == name@);
            if !has_filter_on_exec(&state.filters, name.as_str()) {
                let ghost before = state.filters@;
                let f = ColumnFilter::new(name.clone());
                assert(filter_view(f) =~= fresh_filter(name@));
                state.filters.push(f);
                assert(state@.filters =~= before.map_values(|f: ColumnFilter| filter_view(f)).push(
                    fresh_filter(name@),
                ));
                let mut msg = String::from_str("为列 ");
                msg.append(name.as_str());
                msg.append(" 添加筛选 (f)");
                set_message(actions, msg);
            }
        }
        return ;
    }
    if i.key_pressed(Key::O) && !m.shift && e {
        let ghost before = state.new_rows@;
        state.new_rows.push(empty_row_exec(max_col));
        assert(state@.new_rows =~= row_views(before).push(empty_row(max_col as nat)));
        let r = result.rows.len() + state.new_rows.len() - 1;
        state.cursor = (r, 0);
        state.scroll_to_row = Some(r);
        set_message(actions, String::from_str("已添加新行 (o)"));
        return ;
    }
    if i.key_pressed(Key::O) && m.shift && e {
        let ghost before = state.new_rows@;
        state.new_rows.insert(0, empty_row_exec(max_col));
        assert(state@.new_rows =~= seq![empty_row(max_col as nat)] + row_views(before));
        let r = result.rows.len();
        state.cursor = (r, 0);
        state.scroll_to_row = Some(r);
        set_message(actions, String::from_str("已在开头添加新行 (O)"));
        return ;
    }
    if i.key_pressed(Key::Escape) {
        if !e || state.count.is_some() {
            clear_cmd(state);
        } else if state.filters.len() > 0 {
            state.filters = Vec::new();
            assert(state@.filters =~= seq![]);
            set_message(actions, String::from_str("已清空筛选条件 (Esc)"));
        }
    }
}

// ---------------------------------------------------------------------------
// Select-mode handlers
// ---------------------------------------------------------------------------

proof fn lemma_fill_concat(
    m: Seq<((usize, usize), Seq<char>)>,
    xs: Seq<(usize, usize)>,
    ys: Seq<(usize, usize)>,
)
    ensures
        fill_cells(m, xs + ys) == fill_cells(fill_cells(m, xs), ys),
    decreases ys.len(),
{
    if ys.len() == 0 {
        assert(xs + ys =~= xs);
    } else {
        assert((xs + ys).drop_last() =~= xs + ys.drop_last());
        lemma_fill_concat(m, xs, ys.drop_last());
    }
}

proof fn lemma_rect_bounds(r0: int, r1: int, c0: int, c1: int)
    requires
        r0 <= r1,
        c0 <= c1,
        rect_size(r0, r1, c0, c1) <= usize::MAX,
    ensures
        r1 - r0 + 1 <= usize::MAX,
        c1 - c0 + 1 <= usize::MAX,
{
    assert((r1 - r0 + 1) * (c1 - c0 + 1) >= r1 - r0 + 1) by (nonlinear_arith)
        requires
            r1 - r0 + 1 >= 1,
            c1 - c0 + 1 >= 1,
    ;
    assert((r1 - r0 + 1) * (c1 - c0 + 1) >= c1 - c0 + 1) by (nonlinear_arith)
        requires
            r1 - r0 + 1 >= 1,
            c1 - c0 + 1 >= 1,
    ;
}

/// Empties every cell of rows `r0..=r1` and columns `c0..=c1`.
fn fill_rect(m: &mut Vec<((usize, usize), String)>, r0: usize, r1: usize, c0: usize, c1: usize)
    requires
        r0 <= r1,
        c0 <= c1,
        r1 - r0 + 1 <= usize::MAX,
        c1 - c0 + 1 <= usize::MAX,
    ensures
        cell_views(final(m)@) == fill_cells(
            cell_views(old(m)@),
            rect_cells(r0 as int, r1 as int, c0 as int, c1 as int),
        ),
{
    let ghost m0 = cell_views(m@);
    let nrows = r1 - r0 + 1;
    let ncols = c1 - c0 + 1;
    let mut k: usize = 0;
    while k < nrows
        invariant
            r0 <= r1,
            c0 <= c1,
            nrows == r1 - r0 + 1,
            ncols == c1 - c0 + 1,
            k <= nrows,
            cell_views(m@) == fill_cells(m0, rect_cells(r0 as int, r0 + k - 1, c0 as int, c1 as int)),
        decreases nrows - k,
    {
        let r = r0 + k;
        let ghost before = rect_cells(r0 as int, r0 + k - 1, c0 as int, c1 as int);
        let mut j: usize = 0;
        while j < ncols
            invariant
                r == r0 + k,
                r <= r1,
                c0 <= c1,
                ncols == c1 - c0 + 1,
                j <= ncols,
                before == rect_cells(r0 as int, r0 + k - 1, c0 as int, c1 as int),
                cell_views(m@) == fill_cells(
                    m0,
                    before + row_cells(r as int, c0 as int, c0 + j - 1),
                ),
            decreases ncols - j,
        {
            let c = c0 + j;
            assert(row_cells(r as int, c0 as int, c as int) =~= row_cells(
                r as int,
                c0 as int,
                c0 + j - 1,
            ).push((r, c)));
            assert(before + row_cells(r as int, c0 as int, c as int) =~= (before + row_cells(
                r as int,
                c0 as int,
                c0 + j - 1,
            )).push((r, c)));
            let x = String::new();
            assert(x@ =~= Seq::<char>::empty());
            let ghost prev = before + row_cells(r as int, c0 as int, c0 + j - 1);
            cells_insert_exec(m, (r, c), x);
            assert(prev.push((r, c)).drop_last() =~= prev);
            assert(cell_views(m@) == fill_cells(m0, prev.push((r, c))));
            j = j + 1;
        }
        assert(row_cells(r as int, c0 as int, c0 + ncols - 1) =~= row_cells(
            r as int,
            c0 as int,
            c1 as int,
        ));
        assert(rect_cells(r0 as int, r as int, c0 as int, c1 as int) == rect_cells(
            r0 as int,
            r - 1,
            c0 as int,
            c1 as int,
        ) + row_cells(r as int, c0 as int, c1 as int));
        k = k + 1;
    }
}

/// The shown cells of a row from column `c0` through `c1`, tab-separated.
fn row_text_exec(row: &Vec<String>, c0: usize, c1: usize) -> (r: String)
    requires
        c0 <= c1,
    ensures
        r@ == row_text(views(row@), c0 as int, c1 as int),
{
    if c0 >= row.len() {
        return String::new();
    }
    let end = if c1 < row.len() {
        c1 + 1
    } else {
        row.len()
    };
    let mut part: Vec<String> = Vec::new();
    let mut c = c0;
    while c < end
        invariant
            c0 <= c <= end <= row@.len(),
            views(part@) == views(row@).subrange(c0 as int, c as int),
        decreases end - c,
    {
        let ghost before = part@;
        part.push(row[c].clone());
        assert(views(part@) =~= views(before).push(row@[c as int]@));
        c = c + 1;
        assert(views(part@) =~= views(row@).subrange(c0 as int, c as int));
    }
    join_strings(&part, "\t")
}

/// The text copied from the selection (see `yank_text`).
fn yank_exec(
    filtered_rows: &[(usize, &Vec<String>)],
    r0: usize,
    r1: usize,
    c0: usize,
    c1: usize,
    ghost_rows: Ghost<Seq<Seq<Seq<char>>>>,
) -> (r: String)
    requires
        ghost_rows@ == filtered_rows@.map_values(|p: (usize, &Vec<String>)| views(p.1@)),
        r0 <= r1,
        c0 <= c1,
        r1 - r0 + 1 <= usize::MAX,
    ensures
        r@ == yank_text(ghost_rows@, r0 as int, r1 as int, c0 as int, c1 as int),
{
    let nrows = r1 - r0 + 1;
    let mut text = String::new();
    let mut k: usize = 0;
    while k < nrows
        invariant
            r0 <= r1,
            c0 <= c1,
            nrows == r1 - r0 + 1,
            k <= nrows,
            ghost_rows@ == filtered_rows@.map_values(|p: (usize, &Vec<String>)| views(p.1@)),
            text@ == yank_text(ghost_rows@, r0 as int, r0 + k - 1, c0 as int, c1 as int),
        decreases nrows - k,
    {
        let r = r0 + k;
        if r < filtered_rows.len() {
            let row: &Vec<String> = filtered_rows[r].1;
            assert(ghost_rows@[r as int] == views(row@));
            if !text.as_str().is_empty() {
                text.append("\n");
            }
            let t = row_text_exec(row, c0, c1);
            text.append(t.as_str());
        }
        k = k + 1;
    }
    text
}

/// One frame of keys in select mode (see `select_step`).
fn handle_select_mode(
    i: &KeyInput,
    state: &mut DataGridState,
    filtered_rows: &[(usize, &Vec<String>)],
    actions: &mut DataGridActions,
    max_row: usize,
    max_col: usize,
    ghost_ctx: Ghost<GridContext>,
)
    requires
        ghost_ctx@.rows == filtered_rows@.map_values(|p: (usize, &Vec<String>)| views(p.1@)),
        max_row == ghost_ctx@.rows.len(),
        max_col == ghost_ctx@.columns.len(),
        max_row > 0,
        max_col > 0,
        keyboard_fits(old(state)@, ghost_ctx@),
    ensures
        (final(state)@, final(actions)@) == select_step(old(state)@, old(actions)@, *i, ghost_ctx@),
{
    if i.key_pressed(Key::H) || i.key_pressed(Key::ArrowLeft) {
        state.move_cursor(0, -1, max_row, max_col);
        return ;
    }
    if i.key_pressed(Key::J) || i.key_pressed(Key::ArrowDown) {
        state.move_cursor(1, 0, max_row, max_col);
        return ;
    }
    if i.key_pressed(Key::K) || i.key_pressed(Key::ArrowUp) {
        state.move_cursor(-1, 0, max_row, max_col);
        return ;
    }
    if i.key_pressed(Key::L) || i.key_pressed(Key::ArrowRight) {
        state.move_cursor(0, 1, max_row, max_col);
        return ;
    }
    if i.key_pressed(Key::W) {
        state.move_cursor(0, 1, max_row, max_col);
        return ;
    }
    if i.key_pressed(Key::B) {
        state.move_cursor(0, -1, max_row, max_col);
        return ;
    }
    if i.key_pressed(Key::D) {
        match state.get_selection() {
            Some(((r0, c0), (r1, c1))) => {
                proof {
                    lemma_rect_bounds(r0 as int, r1 as int, c0 as int, c1 as int);
                }
                fill_rect(&mut state.modified_cells, r0, r1, c0, c1);
                let size = (r1 - r0 + 1) * (c1 - c0 + 1);
                set_message(actions, numbered("已清空 ", size as u64, " 个单元格 (d)"));
            },
            None => {},
        }
        state.mode = GridMode::Normal;
        state.select_anchor = None;
        return ;
    }
    if i.key_pressed(Key::C) {
        match state.get_selection() {
            Some(((r0, c0), (r1, c1))) => {
                proof {
                    lemma_rect_bounds(r0 as int, r1 as int, c0 as int, c1 as int);
                }
                fill_rect(&mut state.modified_cells, r0, r1, c0, c1);
            },
            None => {},
        }
        state.mode = GridMode::Insert;
        state.editing_cell = Some(state.cursor);
        state.edit_text = String::new();
        state.original_value = String::new();
        state.select_anchor = None;
        return ;
    }
    if i.key_pressed(Key::Y) {
        match state.get_selection() {
            Some(((r0, c0), (r1, c1))) => {
                proof {
                    lemma_rect_bounds(r0 as int, r1 as int, c0 as int, c1 as int);
                }
                let text = yank_exec(filtered_rows, r0, r1, c0, c1, Ghost(ghost_ctx@.rows));
                state.clipboard = Some(text);
                set_message(actions, String::from_str("已复制选中内容 (y)"));
            },
            None => {},
        }
        state.mode = GridMode::Normal;
        state.select_anchor = None;
        return ;
    }
    if i.key_pressed(Key::X) {
        state.select_anchor = Some((state.cursor.0, 0));
        state.cursor.1 = max_col - 1;
        return ;
    }
    if i.key_pressed(Key::Escape) || (i.key_pressed(Key::Semicolon) && !i.modifiers.shift) {
        state.mode = GridMode::Normal;
        state.select_anchor = None;
        clear_cmd(state);
    }
}

// ---------------------------------------------------------------------------
// The handler
// ---------------------------------------------------------------------------

/// The first digit key pressed, smallest first.
fn first_digit(i: &KeyInput) -> (r: Option<usize>)
    ensures
        match r {
            Some(d) => first_digit_from(*i, 0) == Some(d as nat) && d <= 9,
            None => first_digit_from(*i, 0) is None,
        },
{
    proof {
        reveal_with_fuel(first_digit_from, 11);
    }
    if i.key_pressed(Key::Num0) {
        return Some(0);
    }
    if i.key_pressed(Key::Num1) {
        return Some(1);
    }
    if i.key_pressed(Key::Num2) {
        return Some(2);
    }
    if i.key_pressed(Key::Num3) {
        return Some(3);
    }
    if i.key_pressed(Key::Num4) {
        return Some(4);
    }
    if i.key_pressed(Key::Num5) {
        return Some(5);
    }
    if i.key_pressed(Key::Num6) {
        return Some(6);
    }
    if i.key_pressed(Key::Num7) {
        return Some(7);
    }
    if i.key_pressed(Key::Num8) {
        return Some(8);
    }
    if i.key_pressed(Key::Num9) {
        return Some(9);
    }
    None
}

/// A digit key extends the count (see `number_input`); whether it counted.
fn handle_number_input(i: &KeyInput, count: &mut Option<usize>) -> (handled: bool)
    ensures
        handled == number_input(*i, *old(count)) is Some,
        handled ==> *final(count) == number_input(*i, *old(count))->Some_0,
        !handled ==> *final(count) == *old(count),
{
    if i.modifiers.ctrl || i.modifiers.alt || i.modifiers.shift {
        return false;
    }
    proof {
        reveal_with_fuel(first_digit_from, 11);
    }
    match first_digit(i) {
        None => false,
        Some(d) => {
            if d == 0 && count.is_none() {
                return false;
            }
            let current = match *count {
                Some(n) => n,
                None => 0,
            };
            if current <= 9999 {
                *count = Some(current * 10 + d);
            }
            true
        },
    }
}

/// One frame of keys in normal mode (see `normal_step`).
fn handle_normal_mode(
    i: &KeyInput,
    state: &mut DataGridState,
    result: &QueryResult,
    filtered_rows: &[(usize, &Vec<String>)],
    actions: &mut DataGridActions,
    max_row: usize,
    max_col: usize,
    half_page_rows: usize,
    ghost_ctx: Ghost<GridContext>,
)
    requires
        ghost_ctx@ == grid_context(*result, filtered_rows@),
        max_row == ghost_ctx@.rows.len(),
        max_col == ghost_ctx@.columns.len(),
        max_row > 0,
        max_col > 0,
        half_page_rows == half_page(max_row as nat),
        keyboard_fits(old(state)@, ghost_ctx@),
    ensures
        (final(state)@, final(actions)@) == normal_step(old(state)@, old(actions)@, *i, ghost_ctx@),
{
    if handle_nav_keys(i, state, actions, max_row, max_col, half_page_rows, ghost_ctx) {
        return ;
    }
    if handle_prefix_keys(i, state, filtered_rows, actions, max_row, max_col, ghost_ctx) {
        return ;
    }
    handle_edit_keys(i, state, result, filtered_rows, actions, max_row, max_col, ghost_ctx);
}

/// Handles one frame of keys on the grid (see `keyboard_step`): counts,
/// Enter after a count, Backspace, then the keys of the current mode.
pub fn handle_keyboard(
    input: &KeyInput,
    state: &mut DataGridState,
    result: &QueryResult,
    filtered_rows: &[(usize, &Vec<String>)],
    actions: &mut DataGridActions,
)
    requires
        keyboard_fits(old(state)@, grid_context(*result, filtered_rows@)),
    ensures
        (final(state)@, final(actions)@) == keyboard_step(
            old(state)@,
            old(actions)@,
            *input,
            grid_context(*result, filtered_rows@),
        ),
{
    let ghost ctx = grid_context(*result, filtered_rows@);
    if !state.focused || state.mode == GridMode::Insert {
        return ;
    }
    let max_row = filtered_rows.len();
    let max_col = result.columns.len();
    if max_row == 0 || max_col == 0 {
        return ;
    }
    let half_page_rows = if max_row / 2 >= 1 {
        max_row / 2
    } else {
        1
    };
    if handle_number_input(input, &mut state.count) {
        return ;
    }
    if input.key_pressed(Key::Enter) && state.command_buffer.as_str().is_empty() {
        if let Some(tab_number) = state.count {
            if tab_number > 0 {
                actions.switch_to_tab = Some(tab_number - 1);
                let mut m = String::from_str("切换到查询 ");
                push_decimal(&mut m, tab_number as u64);
                set_message(actions, m);
            }
            clear_cmd(state);
            return ;
        }
    }
    if input.key_pressed(Key::Backspace) {
        if let Some(current) = state.count {
            state.count = if current < 10 {
                None
            } else {
                Some(current / 10)
            };
            return ;
        }
    }
    match state.mode {
        GridMode::Normal => {
            handle_normal_mode(
                input,
                state,
                result,
                filtered_rows,
                actions,
                max_row,
                max_col,
                half_page_rows,
                Ghost(ctx),
            );
        },
        GridMode::Select => {
            handle_select_mode(input, state, filtered_rows, actions, max_row, max_col, Ghost(ctx));
        },
        GridMode::Insert => {},
    }
}

} // verus!
