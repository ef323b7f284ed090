//! Dialog state and the SQL that dialogs generate.
pub mod dialog_trait;

pub use dialog_trait::{DataDialogState, DialogButtons, DialogResult, DialogState, SimpleDialogState};
pub mod common;

pub use common::{DialogContent, DialogFooter, DialogHeader, DialogStatus, DialogWindow, FooterResult};
pub mod ddl_dialog;

pub use ddl_dialog::{ColumnDefinition, ColumnType, DdlDialog, DdlDialogState, TableDefinition};
pub mod create_db_dialog;

pub use create_db_dialog::{CreateDbDialog, CreateDbDialogResult, CreateDbDialogState};
pub mod create_user_dialog;

pub use create_user_dialog::{CreateUserDialog, CreateUserDialogResult, CreateUserDialogState, Privilege};
pub mod export_dialog;

pub use export_dialog::{ExportConfig, ExportDialog};
pub mod keyboard;
pub mod connection_dialog;
pub mod widgets;

pub use connection_dialog::{validate_config, ConnectionDialog, ValidationResult};
pub use widgets::{AboutDialog, ConfirmDialog, HelpDialog, KeyBindingsDialog};
