//! Identifier checks, value escaping and the statements that save edits.

use gridix::database::QueryResult;
use gridix::text::parse_usize;
use gridix::ui::components::grid::DataGrid;
use gridix::ui::components::grid::actions::{
    cancel_pending_sql, confirm_pending_sql, generate_save_sql, handle_save_request,
};
use gridix::ui::{escape_identifier, escape_value, quote_identifier, DataGridActions, DataGridState};

fn identifiers_valid() {
    assert_eq!(escape_identifier("users").unwrap(), "users");
    assert_eq!(escape_identifier("user_name").unwrap(), "user_name");
    assert_eq!(escape_identifier("_private").unwrap(), "_private");
    assert_eq!(escape_identifier("Table123").unwrap(), "Table123");
    assert_eq!(escape_identifier("用户表").unwrap(), "用户表");
}

fn identifiers_invalid() {
    assert!(escape_identifier("").is_err());
    assert!(escape_identifier("user;drop").is_err());
    assert!(escape_identifier("table'name").is_err());
    assert!(escape_identifier("table\"name").is_err());
    assert!(escape_identifier("table`name").is_err());
    assert!(escape_identifier("table-name").is_err());
    let long_name = "a".repeat(64);
    assert!(escape_identifier(&long_name).is_err());
}

fn identifiers_keywords() {
    assert!(escape_identifier("DROP").is_err());
    assert!(escape_identifier("drop").is_err());
    assert!(escape_identifier("DELETE").is_err());
    assert!(escape_identifier("UNION").is_err());
    assert!(escape_identifier("SELECT").is_err());
    assert!(escape_identifier("user_select").is_ok());
    assert!(escape_identifier("dropdown").is_ok());
}

fn quoting() {
    assert_eq!(quote_identifier("users", true).unwrap(), "`users`");
    assert_eq!(quote_identifier("user_name", true).unwrap(), "`user_name`");
    assert_eq!(quote_identifier("users", false).unwrap(), "\"users\"");
    assert_eq!(quote_identifier("user_name", false).unwrap(), "\"user_name\"");
}

fn values() {
    assert_eq!(escape_value("hello"), "'hello'");
    assert_eq!(escape_value("it's"), "'it''s'");
    assert_eq!(escape_value("NULL"), "NULL");
    assert_eq!(escape_value("O'Brien"), "'O''Brien'");
}

#[test]
fn grid_tests_test_escape_identifier_valid() {
    identifiers_valid();
}

#[test]
fn grid_tests_test_escape_identifier_invalid() {
    identifiers_invalid();
}

#[test]
fn grid_tests_test_escape_identifier_sql_keywords() {
    identifiers_keywords();
}

#[test]
fn grid_tests_test_quote_identifier() {
    quoting();
}

#[test]
fn grid_tests_test_escape_value() {
    values();
}

#[test]
fn ui_components_tests_test_escape_identifier_valid() {
    identifiers_valid();
}

#[test]
fn ui_components_tests_test_escape_identifier_invalid() {
    identifiers_invalid();
}

#[test]
fn ui_components_tests_test_escape_identifier_sql_keywords() {
    identifiers_keywords();
}

#[test]
fn ui_components_tests_test_quote_identifier() {
    quoting();
}

#[test]
fn ui_components_tests_test_escape_value() {
    values();
}

#[test]
fn identifier_errors_say_why() {
    assert_eq!(escape_identifier("").unwrap_err(), "标识符不能为空");
    assert_eq!(escape_identifier("a;b").unwrap_err(), "标识符 'a;b' 包含非法字符 ';'");
    assert_eq!(escape_identifier("select").unwrap_err(), "标识符 'select' 是 SQL 保留字");
    assert!(escape_identifier(&"a".repeat(63)).is_ok());
}

fn people() -> QueryResult {
    QueryResult {
        columns: vec!["id".to_string(), "name".to_string()],
        rows: vec![
            vec!["1".to_string(), "Alice".to_string()],
            vec!["2".to_string(), "O'Brien".to_string()],
        ],
        affected_rows: 0,
    }
}

#[test]
fn updates_run_at_once() {
    let result = people();
    let mut state = DataGridState::default();
    state.modified_cells.push(((0, 1), "Alicia".to_string()));
    let mut actions = DataGridActions::default();
    generate_save_sql(&result, &mut state, "users", &mut actions);
    assert_eq!(
        actions.sql_to_execute,
        vec!["UPDATE users SET name = 'Alicia' WHERE id = '1';".to_string()]
    );
    assert_eq!(actions.message.as_deref(), Some("将执行 1 条 SQL 语句"));
    assert!(state.modified_cells.is_empty());
}

#[test]
fn deletions_wait_for_confirmation() {
    let result = people();
    let mut state = DataGridState::default();
    state.rows_to_delete.push(1);
    let mut actions = DataGridActions::default();
    generate_save_sql(&result, &mut state, "users", &mut actions);
    assert!(actions.sql_to_execute.is_empty());
    assert!(state.show_save_confirm);
    assert_eq!(state.pending_sql, vec!["DELETE FROM users WHERE id = '2';".to_string()]);
    assert_eq!(actions.message.as_deref(), Some("包含 1 条删除操作，请确认"));
    let mut confirm = DataGridActions::default();
    confirm_pending_sql(&mut state, &mut confirm);
    assert_eq!(confirm.sql_to_execute.len(), 1);
    assert!(!state.show_save_confirm);
    assert!(state.rows_to_delete.is_empty());
}

#[test]
fn cancelling_keeps_the_edits() {
    let result = people();
    let mut state = DataGridState::default();
    state.rows_to_delete.push(0);
    let mut actions = DataGridActions::default();
    generate_save_sql(&result, &mut state, "users", &mut actions);
    cancel_pending_sql(&mut state);
    assert!(state.pending_sql.is_empty());
    assert!(!state.show_save_confirm);
    assert_eq!(state.rows_to_delete, vec![0]);
}

#[test]
fn nothing_to_save_and_bad_table_name() {
    let result = people();
    let mut state = DataGridState::default();
    let mut actions = DataGridActions::default();
    generate_save_sql(&result, &mut state, "users", &mut actions);
    assert_eq!(actions.message.as_deref(), Some("没有需要保存的修改"));
    let mut actions = DataGridActions::default();
    generate_save_sql(&result, &mut state, "bad;name", &mut actions);
    assert_eq!(
        actions.message.as_deref(),
        Some("表名无效: 标识符 'bad;name' 包含非法字符 ';'")
    );
}

#[test]
fn save_request_of_a_frame() {
    let result = people();
    let mut state = DataGridState::default();
    state.modified_cells.push(((1, 1), "Bob".to_string()));
    state.pending_save = true;
    let mut actions = DataGridActions::default();
    handle_save_request(&result, &mut state, None, &mut actions);
    assert!(!state.pending_save);
    assert!(actions.sql_to_execute.is_empty());
    assert_eq!(state.modified_cells.len(), 1);
    state.pending_save = true;
    handle_save_request(&result, &mut state, Some("users"), &mut actions);
    assert!(!state.pending_save);
    assert_eq!(
        actions.sql_to_execute,
        vec!["UPDATE users SET name = 'Bob' WHERE id = '2';".to_string()]
    );
    let mut quiet = DataGridActions::default();
    state.pending_save = true;
    handle_save_request(&result, &mut state, Some("users"), &mut quiet);
    assert!(!state.pending_save);
    assert!(quiet.message.is_none());
}

#[test]
fn reading_unsigned_numbers() {
    let p = |s: &str| parse_usize(&s.chars().collect::<Vec<char>>());
    for s in ["0", "42", "+7", "007", "", "+", "-1", "1 2", "x", "18446744073709551615", "18446744073709551616"] {
        assert_eq!(p(s), s.parse::<usize>().ok(), "{}", s);
    }
    assert_eq!(p("+7"), Some(7));
    assert_eq!(p("99999999999999999999999"), None);
}

#[test]
fn goto_line_prompt() {
    let mut state = DataGridState::default();
    state.cursor = (0, 1);
    state.show_goto_dialog = true;
    state.goto_input = " 3 ".to_string();
    DataGrid::confirm_goto(&mut state, 5);
    assert_eq!(state.cursor, (2, 1));
    assert_eq!(state.scroll_to_row, Some(2));
    assert!(!state.show_goto_dialog);
    assert!(state.goto_input.is_empty());
    state.show_goto_dialog = true;
    state.goto_input = "9".to_string();
    DataGrid::confirm_goto(&mut state, 5);
    assert_eq!(state.cursor, (2, 1));
    state.goto_input = "0".to_string();
    DataGrid::confirm_goto(&mut state, 5);
    assert_eq!(state.cursor, (2, 1));
    state.show_goto_dialog = true;
    state.goto_input = "4".to_string();
    DataGrid::cancel_goto(&mut state);
    assert!(!state.show_goto_dialog && state.goto_input.is_empty());
    assert_eq!(state.cursor, (2, 1));
}

#[test]
fn mode_bar_texts_and_new_rows() {
    let result = people();
    let mut state = DataGridState::default();
    state.cursor = (4, 0);
    assert_eq!(DataGrid::position_text(&state), "5:1");
    assert_eq!(DataGrid::selection_text(&state), None);
    state.select_anchor = Some((1, 1));
    assert_eq!(DataGrid::selection_text(&state).as_deref(), Some("选择: 4x2"));
    state.select_anchor = None;
    let mut actions = DataGridActions::default();
    DataGrid::append_row(&mut state, &result, &mut actions);
    assert_eq!(state.new_rows, vec![vec![String::new(), String::new()]]);
    assert_eq!(state.cursor, (2, 0));
    assert_eq!(state.scroll_to_row, Some(2));
    assert!(state.focused);
    assert_eq!(actions.message.as_deref(), Some("已添加新行"));
}
