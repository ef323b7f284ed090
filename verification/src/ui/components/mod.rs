//! Reusable components: the data grid, its filters and the query tabs.
pub mod er_diagram;
pub mod grid;
pub mod query_tabs;
pub mod sql_editor;
pub mod toolbar;
pub mod widgets;

pub use grid::{
    check_filter_match, escape_identifier, escape_value, quote_identifier, ColumnFilter,
    DataGridActions, DataGridState, FilterLogic, FilterOperator, FocusTransfer, NumKey,
};
pub use grid::filter::{filter_rows_internal, filter_rows_cached, parse_quick_filter, FilterCache, NumericKeys};
pub use er_diagram::{ERColumn, RelationType, Relationship};
pub use query_tabs::{title_safe, QueryTab, QueryTabManager};
pub use sql_editor::{SqlEditor, SqlEditorActions};
pub use toolbar::{Toolbar, ToolbarActions};
pub use widgets::{NotificationToast, SearchBar, Welcome};
