//! Dialog results, buttons, state and footers, and the dialogs' SQL.

use gridix::core_types::ExportFormat;
use gridix::database::{ConnectionConfig, DatabaseType};
use gridix::ui::dialogs::create_user_dialog::Privilege;
use gridix::ui::dialogs::export_dialog::ExportKeyOutcome;
use gridix::ui::input::{Key, KeyInput, Modifiers};
use gridix::ui::dialogs::{
    CreateDbDialog, CreateDbDialogResult, CreateUserDialog, CreateUserDialogResult,
    validate_config, CreateDbDialogState, CreateUserDialogState, DataDialogState, DialogButtons,
    DialogResult, DialogState, ExportConfig, ExportDialog, FooterResult, SimpleDialogState,
};

#[test]
fn test_dialog_result() {
    let result: DialogResult<i32> = DialogResult::Confirm(42);
    assert!(result.is_confirm());
    assert!(!result.is_cancel());
    assert!(!result.is_none());
    let result: DialogResult<i32> = DialogResult::Cancel;
    assert!(!result.is_confirm());
    assert!(result.is_cancel());
    let result: DialogResult<i32> = DialogResult::Idle;
    assert!(result.is_none());
}

#[test]
fn test_dialog_result_confirmed() {
    let result: DialogResult<i32> = DialogResult::Confirm(42);
    assert_eq!(result.confirmed(), Some(42));
    let result: DialogResult<i32> = DialogResult::Cancel;
    assert_eq!(result.confirmed(), None);
}

#[test]
fn test_dialog_result_map() {
    let result: DialogResult<i32> = DialogResult::Confirm(42);
    let mapped = result.map(|x| x * 2);
    assert_eq!(mapped.confirmed(), Some(84));
    let result: DialogResult<i32> = DialogResult::Cancel;
    let mapped = result.map(|x| x * 2);
    assert!(mapped.is_cancel());
}

#[test]
fn test_dialog_buttons() {
    let default = DialogButtons::default();
    assert_eq!(default.confirm_label(), "确认 [Enter]");
    assert_eq!(default.cancel_label(), "取消 [Esc]");
    let danger = DialogButtons::danger("删除");
    assert!(danger.confirm_danger);
    assert_eq!(danger.confirm_label(), "删除 [y]");
    let close = DialogButtons::close_only();
    assert!(!close.show_cancel);
}

#[test]
fn test_simple_dialog_state() {
    let mut state = SimpleDialogState::default();
    assert!(!state.is_open());
    state.open();
    assert!(state.is_open());
    state.close();
    assert!(!state.is_open());
}

#[test]
fn test_data_dialog_state() {
    let mut state: DataDialogState<String> = DataDialogState::default();
    assert!(!state.is_open());
    state.open_with("test".to_string());
    assert!(state.is_open());
    assert_eq!(state.data(), "test");
    state.reset();
    assert!(!state.is_open());
    assert_eq!(state.data(), "");
}

#[test]
fn test_footer_result() {
    let none = FooterResult::none();
    assert!(!none.has_action());
    let confirmed = FooterResult::confirmed();
    assert!(confirmed.has_action());
    assert!(confirmed.confirmed);
    let cancelled = FooterResult::cancelled();
    assert!(cancelled.has_action());
    assert!(cancelled.cancelled);
}

#[test]
fn labels_without_a_key_are_bare() {
    let close = DialogButtons::close_only();
    assert_eq!(close.cancel_label(), "");
    assert_eq!(close.confirm_label(), "关闭 [Enter/Esc]");
    assert_eq!(DialogButtons::save_cancel().confirm_label(), "保存 [Ctrl+S]");
    assert_eq!(DialogButtons::export_cancel().confirm_label(), "导出 [Enter]");
}

#[test]
fn mapping_idle_stays_idle_and_into_option() {
    let r: DialogResult<i32> = DialogResult::Idle;
    assert!(r.map(|x| x + 1).is_none());
    let r: DialogResult<i32> = DialogResult::Confirm(7);
    assert_eq!(r.into_option(), Some(7));
    let mut state: DataDialogState<String> = DataDialogState::default();
    state.data_mut().push_str("abc");
    assert_eq!(state.data(), "abc");
    assert!(!state.is_open());
}

#[test]
fn create_database_statements() {
    let mut state = CreateDbDialogState::new();
    state.open(DatabaseType::MySQL);
    assert_eq!(state.generate_sql().unwrap_err(), "数据库名称不能为空");
    state.db_name = "shop".to_string();
    assert_eq!(
        state.generate_sql().unwrap(),
        "CREATE DATABASE `shop` CHARACTER SET utf8mb4 COLLATE utf8mb4_unicode_ci;"
    );
    state.db_name = "bad-name".to_string();
    assert_eq!(state.generate_sql().unwrap_err(), "数据库名只能包含字母、数字和下划线");
    state.open(DatabaseType::PostgreSQL);
    state.db_name = "shop".to_string();
    state.owner = "bob".to_string();
    assert_eq!(
        state.generate_sql().unwrap(),
        "CREATE DATABASE \"shop\" ENCODING 'UTF8' TEMPLATE template0 OWNER \"bob\";"
    );
    state.open(DatabaseType::SQLite);
    state.db_name = "shop".to_string();
    assert_eq!(state.generate_sql().unwrap(), "SQLITE_CREATE:shop.db");
    state.sqlite_path = "/tmp/x.sqlite".to_string();
    assert_eq!(state.generate_sql().unwrap(), "SQLITE_CREATE:/tmp/x.sqlite");
    state.close();
    assert!(!state.show);
    assert!(state.db_name.is_empty());
}

fn user_form(db: DatabaseType) -> CreateUserDialogState {
    let mut s = CreateUserDialogState::new();
    s.open(db, vec!["shop".to_string()]);
    s.username = "alice".to_string();
    s.password = "pa'ss".to_string();
    s.confirm_password = "pa'ss".to_string();
    s
}

#[test]
fn create_user_checks_in_order() {
    let mut s = user_form(DatabaseType::MySQL);
    s.username = String::new();
    assert_eq!(s.generate_sql().unwrap_err(), "用户名不能为空");
    s.username = "a b".to_string();
    assert_eq!(s.generate_sql().unwrap_err(), "用户名只能包含字母、数字和下划线");
    s.username = "alice".to_string();
    s.confirm_password = "other".to_string();
    assert_eq!(s.generate_sql().unwrap_err(), "两次输入的密码不一致");
    s.password = "abc".to_string();
    s.confirm_password = "abc".to_string();
    assert_eq!(s.generate_sql().unwrap_err(), "密码长度至少为 4 位");
    let mut s = user_form(DatabaseType::SQLite);
    s.db_type = DatabaseType::SQLite;
    assert_eq!(s.generate_sql().unwrap_err(), "SQLite 不支持用户管理");
}

#[test]
fn create_user_mysql() {
    let mut s = user_form(DatabaseType::MySQL);
    assert_eq!(s.privileges.len(), 10);
    assert_eq!(
        s.generate_sql().unwrap(),
        vec![
            "CREATE USER 'alice'@'localhost' IDENTIFIED BY 'pa''ss';".to_string(),
            "FLUSH PRIVILEGES;".to_string()
        ]
    );
    s.grant_database = "shop".to_string();
    s.grant_all = false;
    assert_eq!(s.generate_sql().unwrap_err(), "请至少选择一个权限");
    s.privileges[0].selected = true;
    s.privileges[2].selected = true;
    let stmts = s.generate_sql().unwrap();
    assert_eq!(stmts[1], "GRANT SELECT, UPDATE ON `shop`.* TO 'alice'@'localhost';");
}

#[test]
fn create_user_postgres() {
    let mut s = user_form(DatabaseType::PostgreSQL);
    s.grant_database = "shop".to_string();
    let stmts = s.generate_sql().unwrap();
    assert_eq!(stmts[0], "CREATE USER \"alice\" WITH PASSWORD 'pa''ss';");
    assert_eq!(stmts[1], "GRANT ALL PRIVILEGES ON DATABASE \"shop\" TO \"alice\";");
    s.grant_all = false;
    s.privileges[1].selected = true;
    s.privileges[8].selected = true;
    let stmts = s.generate_sql().unwrap();
    assert_eq!(stmts.len(), 3);
    assert_eq!(stmts[2], "GRANT CONNECT ON DATABASE \"shop\" TO \"alice\";");
    let p: &Privilege = &s.privileges[4];
    assert_eq!(p.name, "TRUNCATE");
}

#[test]
fn export_column_selection() {
    let mut config = ExportConfig::default();
    assert_eq!(config.format, ExportFormat::Csv);
    config.init_columns(3);
    assert!(config.all_columns_selected());
    config.selected_columns[1] = false;
    assert_eq!(config.get_selected_column_indices(), vec![0, 2]);
    assert_eq!(config.selected_column_count(), 2);
    assert!(!config.all_columns_selected());
    config.init_columns(3);
    assert_eq!(config.selected_column_count(), 2);
    config.init_columns(4);
    assert_eq!(config.selected_column_count(), 4);
}

fn connection(db: DatabaseType) -> ConnectionConfig {
    ConnectionConfig {
        name: "local".to_string(),
        db_type: db,
        host: "localhost".to_string(),
        port: 3306,
        username: "root".to_string(),
        database: "app.db".to_string(),
    }
}

#[test]
fn connection_checks() {
    let ok = validate_config(&connection(DatabaseType::MySQL), None);
    assert!(ok.is_valid);
    let mut c = connection(DatabaseType::MySQL);
    c.name = String::new();
    c.host = "a b".to_string();
    c.port = 0;
    let r = validate_config(&c, None);
    assert!(!r.is_valid);
    assert_eq!(
        r.errors,
        vec![
            "连接名称不能为空".to_string(),
            "主机地址不能包含空格".to_string(),
            "端口号不能为 0".to_string()
        ]
    );
    let r = validate_config(&connection(DatabaseType::SQLite), Some("/nope".to_string()));
    assert_eq!(r.errors, vec!["目录不存在: /nope".to_string()]);
}

fn preview_data() -> gridix::database::QueryResult {
    gridix::database::QueryResult {
        columns: vec!["id".to_string(), "name".to_string(), "age".to_string()],
        rows: vec![
            vec!["1".to_string(), "Alice".to_string(), "30".to_string()],
            vec!["2".to_string(), "NULL".to_string(), "25".to_string()],
            vec!["3".to_string(), "Carol".to_string(), "35".to_string()],
            vec!["4".to_string(), "Dan".to_string(), "41".to_string()],
        ],
        affected_rows: 0,
    }
}

#[test]
fn export_previews() {
    let data = preview_data();
    let mut config = ExportConfig::default();
    config.init_columns(3);
    config.selected_columns[2] = false;
    assert_eq!(
        ExportDialog::generate_preview(&config, &data),
        "id,name\n1,Alice\n2,NULL\n3,Carol\n... (+1 行)"
    );
    config.format = ExportFormat::Sql;
    config.start_row = 1;
    assert_eq!(
        ExportDialog::generate_preview(&config, &data),
        "INSERT INTO `t` (`id`, `name`) VALUES ('2', NULL);\nINSERT INTO `t` (`id`, `name`) VALUES ('3', 'Carol');\n... (+2 条)"
    );
    config.format = ExportFormat::Json;
    assert_eq!(
        ExportDialog::generate_preview(&config, &data),
        "[{ \"id\": \"2\", \"name\": null }, { \"id\": \"3\", \"name\": \"Carol\" }, ... (+2 条)]"
    );
    config.selected_columns = vec![false, false, false];
    assert_eq!(ExportDialog::generate_preview(&config, &data), "（未选择任何列）");
}

fn export_input(pressed: Vec<Key>, shift: bool) -> KeyInput {
    KeyInput {
        pressed,
        modifiers: Modifiers { alt: false, ctrl: false, shift, mac_cmd: false, command: false },
    }
}

#[test]
fn export_dialog_keys() {
    let mut c = ExportConfig::default();
    c.init_columns(3);
    assert_eq!(ExportDialog::handle_keys(&export_input(vec![Key::Num2], false), &mut c, 5, 3), ExportKeyOutcome::Stay);
    assert_eq!(c.format, ExportFormat::Sql);
    ExportDialog::handle_keys(&export_input(vec![Key::L], false), &mut c, 5, 3);
    assert_eq!(c.format, ExportFormat::Json);
    ExportDialog::handle_keys(&export_input(vec![Key::L], false), &mut c, 5, 3);
    assert_eq!(c.format, ExportFormat::Csv);
    ExportDialog::handle_keys(&export_input(vec![Key::H], false), &mut c, 5, 3);
    assert_eq!(c.format, ExportFormat::Json);
    ExportDialog::handle_keys(&export_input(vec![Key::G], true), &mut c, 5, 3);
    assert_eq!(c.nav_column_index, 2);
    ExportDialog::handle_keys(&export_input(vec![Key::J], false), &mut c, 5, 3);
    assert_eq!(c.nav_column_index, 2);
    ExportDialog::handle_keys(&export_input(vec![Key::Space], false), &mut c, 5, 3);
    assert_eq!(c.selected_columns, vec![true, true, false]);
    ExportDialog::handle_keys(&export_input(vec![Key::A], false), &mut c, 5, 3);
    assert_eq!(c.selected_columns, vec![true, true, true]);
    ExportDialog::handle_keys(&export_input(vec![Key::A], false), &mut c, 5, 3);
    assert_eq!(c.selected_columns, vec![false, false, false]);
    // nothing ticked: Enter does not export
    assert_eq!(ExportDialog::handle_keys(&export_input(vec![Key::Enter], false), &mut c, 5, 3), ExportKeyOutcome::Stay);
    ExportDialog::handle_keys(&export_input(vec![Key::K, Key::Space], false), &mut c, 5, 3);
    assert_eq!(c.selected_columns, vec![false, true, false]);
    assert_eq!(ExportDialog::handle_keys(&export_input(vec![Key::Enter], false), &mut c, 5, 3), ExportKeyOutcome::Export);
    assert_eq!(ExportDialog::handle_keys(&export_input(vec![Key::Enter], false), &mut c, 0, 3), ExportKeyOutcome::Stay);
    assert_eq!(ExportDialog::handle_keys(&export_input(vec![Key::Escape], false), &mut c, 5, 3), ExportKeyOutcome::Close);
}

#[test]
fn create_database_dialog_keys() {
    let mut state = CreateDbDialogState::new();
    state.open(DatabaseType::MySQL);
    let enter = export_input(vec![Key::Enter], false);
    assert!(matches!(CreateDbDialog::handle_keys(&enter, &mut state), CreateDbDialogResult::Idle));
    assert_eq!(state.error.as_deref(), Some("数据库名称不能为空"));
    assert!(state.show);
    state.db_name = "shop".to_string();
    match CreateDbDialog::handle_keys(&enter, &mut state) {
        CreateDbDialogResult::Create(sql) => assert_eq!(
            sql,
            "CREATE DATABASE `shop` CHARACTER SET utf8mb4 COLLATE utf8mb4_unicode_ci;"
        ),
        _ => panic!("expected a statement"),
    }
    assert!(!state.show);
    state.open(DatabaseType::MySQL);
    assert!(matches!(
        CreateDbDialog::handle_keys(&export_input(vec![Key::Q], false), &mut state),
        CreateDbDialogResult::Cancelled
    ));
    assert!(!state.show);
}

#[test]
fn create_user_dialog_keys() {
    let mut s = user_form(DatabaseType::MySQL);
    let y = export_input(vec![Key::Y], false);
    match CreateUserDialog::handle_keys(&y, &mut s) {
        CreateUserDialogResult::Create(v) => assert_eq!(v.len(), 2),
        _ => panic!("expected statements"),
    }
    assert!(!s.show);
    let mut s = user_form(DatabaseType::MySQL);
    s.password = "abc".to_string();
    s.confirm_password = "abc".to_string();
    assert!(matches!(CreateUserDialog::handle_keys(&y, &mut s), CreateUserDialogResult::Idle));
    assert_eq!(s.error.as_deref(), Some("密码长度至少为 4 位"));
    assert!(matches!(
        CreateUserDialog::handle_keys(&export_input(vec![Key::Escape], false), &mut s),
        CreateUserDialogResult::Cancelled
    ));
}

#[test]
fn export_column_labels_and_row_limits() {
    assert_eq!(ExportDialog::column_label("id"), "id");
    assert_eq!(ExportDialog::column_label(&"c".repeat(20)), "c".repeat(20));
    assert_eq!(ExportDialog::column_label(&"c".repeat(21)), format!("{}…", "c".repeat(18)));
    assert_eq!(ExportDialog::row_limit_from_text("250"), 250);
    assert_eq!(ExportDialog::row_limit_from_text(""), 0);
    assert_eq!(ExportDialog::row_limit_from_text("12x"), 0);
    assert_eq!(ExportDialog::row_limit_from_text(" 5"), 0);
}

#[test]
fn create_user_dialog_closes_at_once_for_sqlite() {
    let mut s = user_form(DatabaseType::SQLite);
    assert!(s.show);
    let enter = export_input(vec![Key::Enter], false);
    assert!(matches!(CreateUserDialog::handle_keys(&enter, &mut s), CreateUserDialogResult::Idle));
    assert!(!s.show);
    assert!(s.error.is_none());
    assert!(s.username.is_empty());
}

#[test]
fn hidden_create_dialogs_ignore_keys() {
    let mut s = user_form(DatabaseType::MySQL);
    s.show = false;
    let y = export_input(vec![Key::Y], false);
    assert!(matches!(CreateUserDialog::handle_keys(&y, &mut s), CreateUserDialogResult::Idle));
    assert_eq!(s.username, "alice");
    let mut d = CreateDbDialogState::new();
    d.db_name = "shop".to_string();
    assert!(!d.show);
    assert!(matches!(CreateDbDialog::handle_keys(&y, &mut d), CreateDbDialogResult::Idle));
    assert_eq!(d.db_name, "shop");
}
