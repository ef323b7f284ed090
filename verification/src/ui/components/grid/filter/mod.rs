//! Filtering of grid rows: operators, conditions, the row filter with its cache,
//! and the one-line quick-filter syntax.
pub mod cache;
pub mod condition;
pub mod logic;
pub mod operators;
pub mod quick_filter;
pub mod ui;

pub use cache::{filter_rows_internal, filter_rows_cached, FilterCache, NumericKeys};
pub use condition::ColumnFilter;
pub use logic::FilterLogic;
pub use operators::{check_filter_match, validate_regex, FilterOperator, NumKey};
pub use quick_filter::{parse_quick_filter, QuickFilterState};
pub use ui::FilterBarState;
