//! The dialog keys, the SQL editor's keys and the sidebar helpers.

use gridix::ui::components::sql_editor::{apply_completion, get_current_word};
use gridix::ui::components::{SqlEditor, SqlEditorActions};
use gridix::ui::dialogs::keyboard::{
    handle_close_keys, handle_dialog_keys, handle_horizontal_navigation, handle_list_navigation,
    DialogAction, HorizontalNavigation, ListNavigation,
};
use gridix::ui::input::{Key, KeyInput, Modifiers};
use gridix::ui::panels::sidebar::{next_operator, prev_operator, truncate_error, ConnectionList};
use gridix::ui::components::FilterOperator;
use gridix::ui::panels::{HistoryPanel, HistoryPanelState, SidebarSelectionState};

fn input(keys: &[Key], ctrl: bool, shift: bool) -> KeyInput {
    KeyInput {
        pressed: keys.to_vec(),
        modifiers: Modifiers { alt: false, ctrl, shift, mac_cmd: false, command: ctrl },
    }
}

#[test]
fn dialog_keys() {
    assert_eq!(handle_dialog_keys(&input(&[Key::Enter], false, false)), DialogAction::Confirm);
    assert_eq!(handle_dialog_keys(&input(&[Key::Enter], true, false)), DialogAction::Idle);
    assert_eq!(handle_dialog_keys(&input(&[Key::Escape], true, false)), DialogAction::Cancel);
    assert_eq!(handle_dialog_keys(&input(&[Key::Y], false, false)), DialogAction::Confirm);
    assert_eq!(handle_dialog_keys(&input(&[Key::N], false, false)), DialogAction::Cancel);
    assert_eq!(handle_dialog_keys(&input(&[Key::Q, Key::Enter], false, false)), DialogAction::Confirm);
    assert!(handle_close_keys(&input(&[Key::Q], false, false)));
    assert!(!handle_close_keys(&input(&[Key::Q], false, true)));
}

#[test]
fn list_and_sideways_keys() {
    assert_eq!(handle_list_navigation(&input(&[Key::J], false, false)), ListNavigation::Down);
    assert_eq!(handle_list_navigation(&input(&[Key::G], false, true)), ListNavigation::End);
    assert_eq!(handle_list_navigation(&input(&[Key::G], false, false)), ListNavigation::Start);
    assert_eq!(handle_list_navigation(&input(&[Key::D], false, false)), ListNavigation::Delete);
    assert_eq!(handle_list_navigation(&input(&[Key::D], true, false)), ListNavigation::Idle);
    assert_eq!(handle_list_navigation(&input(&[Key::O], false, true)), ListNavigation::AddAbove);
    assert_eq!(handle_list_navigation(&input(&[Key::Home], false, false)), ListNavigation::Start);
    assert_eq!(handle_horizontal_navigation(&input(&[Key::ArrowRight], false, false)), HorizontalNavigation::Right);
    assert_eq!(handle_horizontal_navigation(&input(&[], false, false)), HorizontalNavigation::Idle);
}

#[test]
fn completion_replaces_the_word_being_typed() {
    let mut text = "SELECT * FROM us".to_string();
    assert_eq!(get_current_word(&text), "us");
    apply_completion(&mut text, "users");
    assert_eq!(text, "SELECT * FROM users ");
    assert_eq!(get_current_word("a, "), "");
}

struct Editor {
    text: String,
    history_index: Option<usize>,
    actions: SqlEditorActions,
    show: bool,
    selected: usize,
}

impl Editor {
    fn new(text: &str) -> Editor {
        Editor {
            text: text.to_string(),
            history_index: None,
            actions: SqlEditorActions::default(),
            show: false,
            selected: 0,
        }
    }

    fn press(&mut self, i: KeyInput, history: &[String], completions: &[String]) {
        SqlEditor::handle_shortcuts(
            &i,
            &mut self.text,
            history,
            &mut self.history_index,
            &mut self.actions,
            completions,
            &mut self.show,
            &mut self.selected,
        );
    }
}

#[test]
fn enter_runs_a_query_without_trailing_newlines() {
    let mut e = Editor::new("SELECT 1\n\n");
    e.press(input(&[Key::Enter], false, false), &[], &[]);
    assert!(e.actions.execute);
    assert_eq!(e.text, "SELECT 1");
    let mut blank = Editor::new("  \n");
    blank.press(input(&[Key::Enter], false, false), &[], &[]);
    assert!(!blank.actions.execute);
}

#[test]
fn completion_menu_moves_and_applies() {
    let comps = vec!["users".to_string(), "user_roles".to_string()];
    let mut e = Editor::new("SELECT * FROM us");
    e.press(input(&[Key::Space], true, false), &[], &comps);
    assert!(e.show);
    e.press(input(&[Key::ArrowDown], false, false), &[], &comps);
    e.press(input(&[Key::ArrowDown], false, false), &[], &comps);
    assert_eq!(e.selected, 1);
    e.press(input(&[Key::Tab], false, false), &[], &comps);
    assert_eq!(e.text, "SELECT * FROM user_roles ");
    assert!(!e.show);
    e.press(input(&[Key::Escape], false, false), &[], &comps);
    assert!(e.actions.focus_to_grid);
}

#[test]
fn shift_arrows_walk_the_history() {
    let history = vec!["SELECT 3".to_string(), "SELECT 2".to_string()];
    let mut e = Editor::new("");
    e.press(input(&[Key::ArrowUp], false, true), &history, &[]);
    assert_eq!(e.text, "SELECT 3");
    e.press(input(&[Key::ArrowUp], false, true), &history, &[]);
    e.press(input(&[Key::ArrowUp], false, true), &history, &[]);
    assert_eq!(e.history_index, Some(1));
    assert_eq!(e.text, "SELECT 2");
    e.press(input(&[Key::ArrowDown], false, true), &history, &[]);
    assert_eq!(e.text, "SELECT 3");
    e.press(input(&[Key::ArrowDown], false, true), &history, &[]);
    assert_eq!(e.text, "");
    assert_eq!(e.history_index, None);
}

#[test]
fn f5_runs_and_ctrl_l_clears() {
    let mut e = Editor::new("SELECT 1");
    e.press(input(&[Key::F5], false, false), &[], &[]);
    assert!(e.actions.execute);
    e.press(input(&[Key::L], true, false), &[], &[]);
    assert!(e.actions.clear);
}

#[test]
fn operators_cycle_both_ways() {
    let mut op = FilterOperator::Contains;
    for _ in 0..19 {
        let next = next_operator(&op);
        assert_eq!(prev_operator(&next), op);
        op = next;
    }
    assert_eq!(op, FilterOperator::Contains);
    assert_eq!(next_operator(&FilterOperator::Regex), FilterOperator::Contains);
    assert_eq!(prev_operator(&FilterOperator::Contains), FilterOperator::Regex);
    assert_eq!(FilterOperator::all()[5], next_operator(&FilterOperator::all()[4]));
}

#[test]
fn long_errors_are_cut() {
    assert_eq!(truncate_error("short"), "short");
    let long = "e".repeat(60);
    assert_eq!(truncate_error(&long), format!("{}...", "e".repeat(47)));
    assert_eq!(truncate_error(&"x".repeat(50)), "x".repeat(50));
}

#[test]
fn selection_resets() {
    let mut s = SidebarSelectionState { connections: 2, databases: 3, tables: 4, triggers: 5, routines: 0, filters: 0 };
    s.reset_for_database_change();
    assert_eq!((s.connections, s.databases, s.tables, s.triggers), (2, 3, 0, 0));
    s.databases = 7;
    s.reset_for_connection_change();
    assert_eq!((s.connections, s.databases, s.tables, s.triggers), (2, 0, 0, 0));
}

#[test]
fn history_panel_keys() {
    use_history_panel();
}

fn use_history_panel() {
    let history = vec!["SELECT 1".to_string(), "SELECT 2".to_string(), "SELECT 3".to_string()];
    let mut show = true;
    let mut picked: Option<String> = None;
    let mut clear = false;
    let mut state = HistoryPanelState::default();
    HistoryPanel::handle_keys(&input(&[Key::J], false, false), &mut show, &history, &mut picked, &mut clear, &mut state);
    HistoryPanel::handle_keys(&input(&[Key::J], false, false), &mut show, &history, &mut picked, &mut clear, &mut state);
    HistoryPanel::handle_keys(&input(&[Key::J], false, false), &mut show, &history, &mut picked, &mut clear, &mut state);
    assert_eq!(state.selected_index, 2);
    HistoryPanel::handle_keys(&input(&[Key::U], true, false), &mut show, &history, &mut picked, &mut clear, &mut state);
    assert_eq!(state.selected_index, 0);
    HistoryPanel::handle_keys(&input(&[Key::G], false, true), &mut show, &history, &mut picked, &mut clear, &mut state);
    HistoryPanel::handle_keys(&input(&[Key::Delete], true, false), &mut show, &history, &mut picked, &mut clear, &mut state);
    assert!(clear);
    HistoryPanel::handle_keys(&input(&[Key::Enter], false, false), &mut show, &history, &mut picked, &mut clear, &mut state);
    assert_eq!(picked.as_deref(), Some("SELECT 3"));
    assert!(!show);
    let mut show = true;
    HistoryPanel::handle_keys(&input(&[Key::Escape], false, false), &mut show, &history, &mut picked, &mut clear, &mut state);
    assert!(!show);
}

#[test]
fn connection_header_marks() {
    let (t, c) = ConnectionList::connection_header_text("prod", true, true, false);
    assert_eq!(t, "* prod");
    assert_eq!(c, egui::Color32::from_rgb(82, 196, 106));
    let (t, c) = ConnectionList::connection_header_text("prod", true, true, true);
    assert_eq!(t, "> prod");
    assert_eq!(c, egui::Color32::from_rgb(100, 180, 255));
    let (t, c) = ConnectionList::connection_header_text("dev", false, true, false);
    assert_eq!(t, "+ dev");
    assert_eq!(c, egui::Color32::from_rgb(100, 180, 100));
    let (t, c) = ConnectionList::connection_header_text("dev", true, false, false);
    assert_eq!(t, "- dev");
    assert_eq!(c, egui::Color32::from_rgb(140, 140, 150));
}

#[test]
fn status_messages_and_row_counts() {
    assert!(SqlEditor::status_is_error("执行错误: syntax"));
    assert!(SqlEditor::status_is_error("Error: no such table"));
    assert!(SqlEditor::status_is_error("连接失败"));
    assert!(SqlEditor::status_is_error("query failed"));
    assert!(!SqlEditor::status_is_error("查询成功，返回 3 行"));
    assert!(!SqlEditor::status_is_error("error in lowercase"));
    assert_eq!(gridix::ui::components::SearchBar::result_count_label(10, 10), "共 10 行");
    assert_eq!(gridix::ui::components::SearchBar::result_count_label(3, 120), "显示 3 / 120 行");
}

#[test]
fn history_column_and_autocomplete_trigger() {
    assert_eq!(SqlEditor::history_item_text("SELECT *\nFROM t"), "SELECT * FROM t");
    let long = format!("SELECT {}\nFROM t", "x".repeat(70));
    assert_eq!(SqlEditor::history_item_text(&long), format!("{}...", &long[..60]));
    let wide = "表".repeat(25);
    assert_eq!(SqlEditor::history_item_text(&wide), format!("{}...", wide));
    let mut show = false;
    let mut sel = 3;
    SqlEditor::autocomplete_after_edit("SELECT na", true, &mut show, &mut sel);
    assert!(show);
    assert_eq!(sel, 0);
    sel = 2;
    SqlEditor::autocomplete_after_edit("SELECT na", false, &mut show, &mut sel);
    assert!(show);
    assert_eq!(sel, 2);
    SqlEditor::autocomplete_after_edit("SELECT n", true, &mut show, &mut sel);
    assert!(!show);
    assert_eq!(sel, 2);
}
