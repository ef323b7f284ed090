//! The grid's Helix-style keys.

use gridix::database::QueryResult;
use gridix::ui::components::grid::keyboard::handle_keyboard;
use gridix::ui::components::grid::GridMode;
use gridix::ui::input::{Key, KeyInput, Modifiers};
use gridix::ui::{DataGridActions, DataGridState, FocusTransfer};

fn mods(ctrl: bool, shift: bool) -> Modifiers {
    Modifiers { alt: false, ctrl, shift, mac_cmd: false, command: ctrl }
}

fn key(k: Key) -> KeyInput {
    KeyInput { pressed: vec![k], modifiers: mods(false, false) }
}

fn shift(k: Key) -> KeyInput {
    KeyInput { pressed: vec![k], modifiers: mods(false, true) }
}

fn ctrl(k: Key) -> KeyInput {
    KeyInput { pressed: vec![k], modifiers: mods(true, false) }
}

fn grid(n: usize) -> QueryResult {
    QueryResult {
        columns: vec!["id".to_string(), "name".to_string(), "age".to_string()],
        rows: (0..n)
            .map(|i| vec![i.to_string(), format!("n{}", i), format!("{}", 20 + i)])
            .collect(),
        affected_rows: 0,
    }
}

struct Grid {
    result: QueryResult,
    state: DataGridState,
    actions: DataGridActions,
}

impl Grid {
    fn new(n: usize) -> Grid {
        let mut state = DataGridState::default();
        state.focused = true;
        Grid { result: grid(n), state, actions: DataGridActions::default() }
    }

    fn press(&mut self, input: KeyInput) {
        let rows: Vec<(usize, &Vec<String>)> = self.result.rows.iter().enumerate().collect();
        handle_keyboard(&input, &mut self.state, &self.result, &rows, &mut self.actions);
    }
}

#[test]
fn count_then_j_moves_down_that_many_rows() {
    let mut g = Grid::new(20);
    g.press(key(Key::Num5));
    assert_eq!(g.state.count, Some(5));
    g.press(key(Key::J));
    assert_eq!(g.state.cursor, (5, 0));
    assert_eq!(g.state.count, None);
    g.press(key(Key::Num1));
    g.press(key(Key::Num0));
    g.press(key(Key::K));
    assert_eq!(g.state.cursor, (0, 0));
}

#[test]
fn counts_stop_at_the_edges() {
    let mut g = Grid::new(4);
    g.press(key(Key::Num9));
    g.press(key(Key::J));
    assert_eq!(g.state.cursor, (3, 0));
    g.press(key(Key::J));
    assert_eq!(g.actions.focus_transfer, Some(FocusTransfer::ToSqlEditor));
}

#[test]
fn edges_hand_the_focus_on() {
    let mut g = Grid::new(3);
    g.press(key(Key::H));
    assert_eq!(g.actions.focus_transfer, Some(FocusTransfer::ToSidebar));
    g.press(key(Key::K));
    assert_eq!(g.actions.focus_transfer, Some(FocusTransfer::ToQueryTabs));
}

#[test]
fn gg_and_shift_g_jump_to_first_and_last_rows() {
    let mut g = Grid::new(10);
    g.press(shift(Key::G));
    assert_eq!(g.state.cursor.0, 9);
    g.press(key(Key::G));
    assert_eq!(g.state.command_buffer, "g");
    g.press(key(Key::G));
    assert_eq!(g.state.cursor.0, 0);
    assert_eq!(g.state.command_buffer, "");
    g.press(key(Key::G));
    g.press(key(Key::L));
    assert_eq!(g.state.cursor.1, 2);
    g.press(key(Key::G));
    g.press(key(Key::H));
    assert_eq!(g.state.cursor.1, 0);
}

#[test]
fn half_pages() {
    let mut g = Grid::new(10);
    g.press(ctrl(Key::D));
    assert_eq!(g.state.cursor.0, 5);
    g.press(key(Key::PageDown));
    assert_eq!(g.state.cursor.0, 9);
    g.press(ctrl(Key::U));
    assert_eq!(g.state.cursor.0, 4);
    assert_eq!(g.state.scroll_to_row, Some(4));
}

#[test]
fn dd_marks_the_row_once_and_shift_u_unmarks() {
    let mut g = Grid::new(3);
    g.press(key(Key::J));
    g.press(key(Key::D));
    g.press(key(Key::D));
    assert_eq!(g.state.rows_to_delete, vec![1]);
    assert_eq!(g.actions.message.as_deref(), Some("已标记删除第 2 行 (dd)"));
    g.press(key(Key::Space));
    g.press(key(Key::D));
    assert_eq!(g.state.rows_to_delete, vec![1]);
    g.press(shift(Key::U));
    assert!(g.state.rows_to_delete.is_empty());
    assert_eq!(g.actions.message.as_deref(), Some("已取消删除标记 (U)"));
}

#[test]
fn yy_copies_the_row_and_p_pastes_into_the_cell() {
    let mut g = Grid::new(3);
    g.press(key(Key::Y));
    g.press(key(Key::Y));
    assert_eq!(g.state.clipboard.as_deref(), Some("0\tn0\t20"));
    assert_eq!(g.actions.message.as_deref(), Some("已复制第 1 行 (yy)"));
    g.press(key(Key::L));
    g.press(key(Key::P));
    assert_eq!(g.state.modified_cells, vec![((0, 1), "0\tn0\t20".to_string())]);
    g.press(key(Key::U));
    assert!(g.state.modified_cells.is_empty());
}

#[test]
fn insert_mode_starts_from_the_cell() {
    let mut g = Grid::new(3);
    g.press(key(Key::L));
    g.press(key(Key::I));
    assert_eq!(g.state.mode, GridMode::Insert);
    assert_eq!(g.state.editing_cell, Some((0, 1)));
    assert_eq!(g.state.edit_text, "n0");
    assert_eq!(g.state.original_value, "n0");
    // Insert mode ignores the grid keys.
    g.press(key(Key::J));
    assert_eq!(g.state.cursor, (0, 1));
}

#[test]
fn change_clears_the_text_and_keeps_the_original() {
    let mut g = Grid::new(3);
    g.press(key(Key::C));
    assert_eq!(g.state.mode, GridMode::Insert);
    assert_eq!(g.state.edit_text, "");
    assert_eq!(g.state.original_value, "0");
}

#[test]
fn visual_selection_delete_and_yank() {
    let mut g = Grid::new(3);
    g.press(key(Key::V));
    assert_eq!(g.state.mode, GridMode::Select);
    g.press(key(Key::J));
    g.press(key(Key::L));
    g.press(key(Key::Y));
    assert_eq!(g.state.clipboard.as_deref(), Some("0\tn0\n1\tn1"));
    assert_eq!(g.state.mode, GridMode::Normal);
    g.press(key(Key::V));
    g.press(key(Key::K));
    g.press(key(Key::H));
    g.press(key(Key::D));
    assert_eq!(g.actions.message.as_deref(), Some("已清空 4 个单元格 (d)"));
    assert_eq!(g.state.modified_cells.len(), 4);
    assert!(g.state.modified_cells.iter().all(|(_, v)| v.is_empty()));
    assert_eq!(g.state.mode, GridMode::Normal);
    assert_eq!(g.state.select_anchor, None);
}

#[test]
fn select_whole_row_and_all() {
    let mut g = Grid::new(3);
    g.press(key(Key::X));
    assert_eq!(g.state.select_anchor, Some((0, 0)));
    assert_eq!(g.state.cursor, (0, 2));
    g.press(key(Key::Escape));
    assert_eq!(g.state.mode, GridMode::Normal);
    g.press(shift(Key::Num5));
    assert_eq!(g.state.cursor, (2, 2));
    assert_eq!(g.state.select_anchor, Some((0, 0)));
}

#[test]
fn new_rows_below_and_above() {
    let mut g = Grid::new(3);
    g.press(key(Key::O));
    assert_eq!(g.state.new_rows, vec![vec![String::new(); 3]]);
    assert_eq!(g.state.cursor, (3, 0));
    g.press(shift(Key::O));
    assert_eq!(g.state.new_rows.len(), 2);
    assert_eq!(g.state.cursor, (3, 0));
}

#[test]
fn colon_w_asks_to_save_and_q_discards() {
    let mut g = Grid::new(3);
    g.press(shift(Key::Semicolon));
    g.press(key(Key::W));
    assert!(g.state.pending_save);
    g.press(key(Key::O));
    g.press(key(Key::Q));
    assert!(g.state.new_rows.is_empty());
    assert_eq!(g.actions.message.as_deref(), Some("已放弃所有修改 (q)"));
}

#[test]
fn f_adds_a_filter_for_the_column_once() {
    let mut g = Grid::new(3);
    g.press(key(Key::L));
    g.press(key(Key::F));
    g.press(key(Key::F));
    assert_eq!(g.state.filters.len(), 1);
    assert_eq!(g.state.filters[0].column, "name");
    g.press(key(Key::Escape));
    assert!(g.state.filters.is_empty());
}

#[test]
fn count_then_enter_switches_tab_and_backspace_drops_a_digit() {
    let mut g = Grid::new(3);
    g.press(key(Key::Num1));
    g.press(key(Key::Num2));
    g.press(key(Key::Backspace));
    assert_eq!(g.state.count, Some(1));
    g.press(key(Key::Num3));
    g.press(key(Key::Enter));
    assert_eq!(g.actions.switch_to_tab, Some(12));
    assert_eq!(g.actions.message.as_deref(), Some("切换到查询 13"));
    assert_eq!(g.state.count, None);
}

#[test]
fn zero_alone_goes_to_the_line_start() {
    let mut g = Grid::new(3);
    g.press(key(Key::E));
    assert_eq!(g.state.cursor.1, 2);
    g.press(key(Key::Num0));
    assert_eq!(g.state.cursor.1, 0);
    assert_eq!(g.state.count, None);
}

#[test]
fn unfocused_or_empty_grids_ignore_keys() {
    let mut g = Grid::new(3);
    g.state.focused = false;
    g.press(key(Key::J));
    assert_eq!(g.state.cursor, (0, 0));
    let mut e = Grid::new(0);
    e.press(key(Key::J));
    assert_eq!(e.state.cursor, (0, 0));
    assert_eq!(e.actions.focus_transfer, None);
}

#[test]
fn z_commands_scroll() {
    let mut g = Grid::new(3);
    g.press(key(Key::Z));
    g.press(key(Key::Z));
    assert!(g.actions.scroll_to_center);
    g.press(key(Key::Z));
    g.press(key(Key::T));
    assert!(g.actions.scroll_to_top);
    assert_eq!(g.actions.message.as_deref(), Some("滚动到顶部 (zt)"));
}
