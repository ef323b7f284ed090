//! Table definitions and the DDL they produce.

use gridix::database::DatabaseType;
use gridix::ui::dialogs::{ColumnDefinition, ColumnType, DdlDialog, DdlDialogState, TableDefinition};
use gridix::ui::input::{Key, KeyInput, Modifiers};

#[test]
fn test_column_type_sql() {
    let col_type = ColumnType::Varchar(255);
    assert_eq!(col_type.to_sql(&DatabaseType::MySQL), "VARCHAR(255)");
    assert_eq!(col_type.to_sql(&DatabaseType::PostgreSQL), "VARCHAR(255)");
    assert_eq!(col_type.to_sql(&DatabaseType::SQLite), "TEXT");
}

#[test]
fn test_column_definition() {
    let col = ColumnDefinition {
        name: "id".to_string(),
        data_type: ColumnType::Integer,
        primary_key: true,
        auto_increment: true,
        nullable: false,
        ..Default::default()
    };
    let sql = col.to_sql(&DatabaseType::MySQL);
    assert!(sql.contains("PRIMARY KEY"));
    assert!(sql.contains("AUTO_INCREMENT"));
}

#[test]
fn test_table_definition() {
    let mut table = TableDefinition::new(DatabaseType::MySQL);
    table.name = "users".to_string();
    table.columns.push(ColumnDefinition {
        name: "id".to_string(),
        data_type: ColumnType::Integer,
        primary_key: true,
        auto_increment: true,
        nullable: false,
        ..Default::default()
    });
    table.columns.push(ColumnDefinition {
        name: "name".to_string(),
        data_type: ColumnType::Varchar(100),
        nullable: false,
        ..Default::default()
    });
    let sql = table.to_create_sql();
    assert!(sql.contains("CREATE TABLE"));
    assert!(sql.contains("`users`"));
    assert!(sql.contains("`id`"));
    assert!(sql.contains("`name`"));
}

#[test]
fn test_table_validation() {
    let table = TableDefinition::default();
    assert!(table.validate().is_err());
    let mut table = TableDefinition::new(DatabaseType::MySQL);
    table.name = "test".to_string();
    table.columns.push(ColumnDefinition { name: "id".to_string(), ..Default::default() });
    assert!(table.validate().is_ok());
}

#[test]
fn type_names_per_engine() {
    let d = ColumnType::Decimal { precision: 10, scale: 2 };
    assert_eq!(d.display_name(), "DECIMAL(10,2)");
    assert_eq!(d.to_sql(&DatabaseType::PostgreSQL), "NUMERIC(10,2)");
    assert_eq!(d.to_sql(&DatabaseType::SQLite), "REAL");
    assert_eq!(ColumnType::Boolean.to_sql(&DatabaseType::MySQL), "TINYINT(1)");
    assert_eq!(ColumnType::Uuid.to_sql(&DatabaseType::MySQL), "CHAR(36)");
    assert_eq!(ColumnType::Json.to_sql(&DatabaseType::PostgreSQL), "JSONB");
    assert_eq!(ColumnType::Custom("GEOMETRY".to_string()).to_sql(&DatabaseType::SQLite), "GEOMETRY");
    assert_eq!(ColumnType::default(), ColumnType::Varchar(255));
    assert_eq!(ColumnType::common_types().len(), 10);
}

#[test]
fn full_column_and_table_statements() {
    let col = ColumnDefinition {
        name: "id".to_string(),
        data_type: ColumnType::Integer,
        primary_key: true,
        auto_increment: true,
        nullable: false,
        ..Default::default()
    };
    assert_eq!(col.to_sql(&DatabaseType::MySQL), "`id` INT PRIMARY KEY AUTO_INCREMENT");
    assert_eq!(col.to_sql(&DatabaseType::SQLite), "\"id\" INTEGER PRIMARY KEY AUTOINCREMENT");
    let named = ColumnDefinition {
        name: "note".to_string(),
        unique: true,
        default_value: "'x'".to_string(),
        comment: "it's".to_string(),
        ..Default::default()
    };
    assert_eq!(
        named.to_sql(&DatabaseType::MySQL),
        "`note` VARCHAR(255) UNIQUE DEFAULT 'x' COMMENT 'it''s'"
    );
    let mut table = TableDefinition::new(DatabaseType::PostgreSQL);
    table.name = "t".to_string();
    table.comment = "a'b".to_string();
    table.columns.push(col);
    assert_eq!(
        table.to_create_sql(),
        "CREATE TABLE \"t\" (\n    \"id\" INTEGER PRIMARY KEY\n);\nCOMMENT ON TABLE \"t\" IS 'a''b';"
    );
}

#[test]
fn validation_messages_in_order() {
    let mut table = TableDefinition::new(DatabaseType::SQLite);
    assert_eq!(table.validate().unwrap_err(), "表名不能为空");
    table.name = "t".to_string();
    assert_eq!(table.validate().unwrap_err(), "至少需要一个列");
    table.columns.push(ColumnDefinition { name: "Id".to_string(), ..Default::default() });
    table.columns.push(ColumnDefinition { name: "id".to_string(), ..Default::default() });
    assert_eq!(table.validate().unwrap_err(), "列名 'id' 重复");
    table.columns[1].name = String::new();
    assert_eq!(table.validate().unwrap_err(), "列名不能为空");
    table.columns[1].name = "b".to_string();
    table.columns[0].primary_key = true;
    table.columns[1].primary_key = true;
    assert_eq!(table.validate().unwrap_err(), "只能有一个主键列");
}

#[test]
fn dialog_opens_with_an_id_column() {
    let mut state = DdlDialogState::new();
    state.open_create_table(DatabaseType::MySQL);
    assert!(state.show);
    assert_eq!(state.table.columns.len(), 1);
    assert_eq!(state.table.columns[0].name, "id");
    assert!(state.table.columns[0].primary_key);
    state.close();
    assert!(!state.show);
    assert!(state.table.columns.is_empty());
}

#[test]
fn empty_table_gives_no_statement() {
    let table = TableDefinition::new(DatabaseType::MySQL);
    assert_eq!(table.to_create_sql(), "");
}

fn ddl_keys(pressed: Vec<Key>, shift: bool) -> KeyInput {
    KeyInput {
        pressed,
        modifiers: Modifiers { alt: false, ctrl: false, shift, mac_cmd: false, command: false },
    }
}

#[test]
fn create_table_dialog_keys() {
    let mut state = DdlDialogState::new();
    state.open_create_table(DatabaseType::SQLite);
    // o adds a column below and moves onto it
    assert_eq!(DdlDialog::handle_keys(&ddl_keys(vec![Key::O], false), &mut state), None);
    assert_eq!(state.table.columns.len(), 2);
    assert_eq!(state.selected_column, 1);
    assert_eq!(state.table.columns[1].data_type, ColumnType::Varchar(255));
    // Space makes it the primary key, taking the key from the first column
    DdlDialog::handle_keys(&ddl_keys(vec![Key::Space], false), &mut state);
    assert!(state.table.columns[1].primary_key && !state.table.columns[1].nullable);
    assert!(!state.table.columns[0].primary_key);
    // O adds a column above; the cursor stays on index 1
    DdlDialog::handle_keys(&ddl_keys(vec![Key::O], true), &mut state);
    assert_eq!(state.table.columns.len(), 3);
    assert_eq!(state.selected_column, 1);
    assert!(state.table.columns[2].primary_key);
    // G, then d deletes the last column and the cursor follows
    DdlDialog::handle_keys(&ddl_keys(vec![Key::G], true), &mut state);
    assert_eq!(state.selected_column, 2);
    DdlDialog::handle_keys(&ddl_keys(vec![Key::D], false), &mut state);
    assert_eq!(state.table.columns.len(), 2);
    assert_eq!(state.selected_column, 1);
    // Enter with an invalid table records the problem
    assert_eq!(DdlDialog::handle_keys(&ddl_keys(vec![Key::Enter], false), &mut state), None);
    assert_eq!(state.error.as_deref(), Some("表名不能为空"));
    state.table.name = "t".to_string();
    state.table.columns[1].name = "name".to_string();
    let sql = DdlDialog::handle_keys(&ddl_keys(vec![Key::Enter], false), &mut state).unwrap();
    assert!(sql.starts_with("CREATE TABLE \"t\""));
    assert!(!state.show);
    assert!(state.table.columns.is_empty());
}

#[test]
fn create_table_dialog_keeps_one_column() {
    let mut state = DdlDialogState::new();
    state.open_create_table(DatabaseType::MySQL);
    DdlDialog::handle_keys(&ddl_keys(vec![Key::D], false), &mut state);
    assert_eq!(state.table.columns.len(), 1);
    DdlDialog::handle_keys(&ddl_keys(vec![Key::Escape], false), &mut state);
    assert!(!state.show);
}

#[test]
fn create_table_dialog_mouse_edits() {
    let mut state = DdlDialogState::new();
    state.open_create_table(DatabaseType::PostgreSQL);
    DdlDialog::add_column(&mut state);
    DdlDialog::add_column(&mut state);
    assert_eq!(state.table.columns.len(), 3);
    DdlDialog::set_primary_key(&mut state, 2, true);
    assert!(state.table.columns[2].primary_key && !state.table.columns[2].nullable);
    assert!(!state.table.columns[0].primary_key);
    DdlDialog::set_primary_key(&mut state, 2, false);
    assert!(state.table.columns.iter().all(|c| !c.primary_key));
    DdlDialog::remove_column(&mut state, 1);
    assert_eq!(state.table.columns.len(), 2);
    assert_eq!(DdlDialog::try_create(&mut state), None);
    assert_eq!(state.error.as_deref(), Some("表名不能为空"));
    state.table.name = "users".to_string();
    state.table.columns[1].name = "email".to_string();
    let sql = DdlDialog::try_create(&mut state).unwrap();
    assert!(sql.starts_with("CREATE TABLE \"users\""));
    assert!(!state.show);
}
