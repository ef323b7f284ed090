//! Filter conditions, their builders and the quick-filter syntax.

use gridix::ui::components::grid::filter::ui::{add_filter, enabled_count, set_all_enabled};
use gridix::ui::components::grid::filter::QuickFilterState;
use gridix::ui::components::{parse_quick_filter, ColumnFilter, FilterLogic, FilterOperator};
use gridix::ui::input::{Key, KeyInput, Modifiers};

fn default_filter() {
    let filter = ColumnFilter::default();
    assert!(filter.column.is_empty());
    assert!(filter.enabled);
    assert!(!filter.case_sensitive);
    assert_eq!(filter.logic, FilterLogic::And);
}

fn new_filter() {
    let filter = ColumnFilter::new("name".to_string());
    assert_eq!(filter.column, "name");
    assert!(filter.enabled);
}

fn builder_pattern() {
    let filter = ColumnFilter::new("age".to_string())
        .with_operator(FilterOperator::GreaterThan)
        .with_value("18".to_string())
        .with_case_sensitive(true);
    assert_eq!(filter.column, "age");
    assert_eq!(filter.operator, FilterOperator::GreaterThan);
    assert_eq!(filter.value, "18");
    assert!(filter.case_sensitive);
}

fn validity() {
    let filter = ColumnFilter::default();
    assert!(!filter.is_valid());
    let filter = ColumnFilter::new("name".to_string()).with_operator(FilterOperator::Contains);
    assert!(!filter.is_valid());
    let filter = ColumnFilter::new("name".to_string())
        .with_operator(FilterOperator::Contains)
        .with_value("test".to_string());
    assert!(filter.is_valid());
    let filter = ColumnFilter::new("deleted".to_string()).with_operator(FilterOperator::IsNull);
    assert!(filter.is_valid());
}

#[test]
fn ui_tests_test_default_filter() {
    default_filter();
}

#[test]
fn ui_tests_test_new_filter() {
    new_filter();
}

#[test]
fn ui_tests_test_builder_pattern() {
    builder_pattern();
}

#[test]
fn test_is_valid() {
    validity();
}

#[test]
fn ui_components_tests_test_default_filter() {
    default_filter();
}

#[test]
fn ui_components_tests_test_new_filter() {
    new_filter();
}

#[test]
fn ui_components_tests_test_builder_pattern() {
    builder_pattern();
}

#[test]
fn test_filter_is_valid() {
    validity();
}

#[test]
fn test_parse_simple_filter() {
    let columns = vec!["name".to_string(), "age".to_string()];
    let result = parse_quick_filter("name ~ john", &columns);
    assert!(result.is_ok());
    let filter = result.unwrap();
    assert_eq!(filter.column, "name");
    assert_eq!(filter.operator, FilterOperator::Contains);
    assert_eq!(filter.value, "john");
}

#[test]
fn test_parse_comparison_filter() {
    let columns = vec!["age".to_string()];
    let result = parse_quick_filter("age > 18", &columns);
    assert!(result.is_ok());
    let filter = result.unwrap();
    assert_eq!(filter.operator, FilterOperator::GreaterThan);
    assert_eq!(filter.value, "18");
}

#[test]
fn test_parse_null_filter() {
    let columns = vec!["deleted".to_string()];
    let result = parse_quick_filter("deleted NULL", &columns);
    assert!(result.is_ok());
    let filter = result.unwrap();
    assert_eq!(filter.operator, FilterOperator::IsNull);
    assert!(filter.value.is_empty());
}

#[test]
fn test_parse_between_filter() {
    let columns = vec!["age".to_string()];
    let result = parse_quick_filter("age [] 18 30", &columns);
    assert!(result.is_ok());
    let filter = result.unwrap();
    assert_eq!(filter.operator, FilterOperator::Between);
    assert_eq!(filter.value, "18");
    assert_eq!(filter.value2, "30");
}

#[test]
fn test_partial_column_match() {
    let columns = vec!["username".to_string()];
    let result = parse_quick_filter("user ~ test", &columns);
    assert!(result.is_ok());
    let filter = result.unwrap();
    assert_eq!(filter.column, "username");
}

#[test]
fn test_invalid_column() {
    let columns = vec!["name".to_string()];
    let result = parse_quick_filter("invalid ~ test", &columns);
    assert!(result.is_err());
}

#[test]
fn test_missing_value() {
    let columns = vec!["name".to_string()];
    let result = parse_quick_filter("name ~", &columns);
    assert!(result.is_err());
}

#[test]
fn empty_quick_filter_is_refused() {
    let columns = vec!["name".to_string()];
    assert!(parse_quick_filter("   ", &columns).is_err());
}

#[test]
fn builders_replace_one_field_each() {
    let filter = ColumnFilter::new("c".to_string())
        .with_value2("9".to_string())
        .with_logic(FilterLogic::Or);
    assert_eq!(filter.value2, "9");
    assert_eq!(filter.logic, FilterLogic::Or);
    assert_eq!(filter.operator, FilterOperator::Contains);
    assert!(filter.value.is_empty());
}

#[test]
fn filter_bar_header_buttons() {
    use_filter_bar_header();
}

fn use_filter_bar_header() {
    let mut filters: Vec<ColumnFilter> = Vec::new();
    add_filter(&mut filters, &["id".to_string(), "name".to_string()]);
    add_filter(&mut filters, &[]);
    assert_eq!(filters.len(), 2);
    assert_eq!(filters[0].column, "id");
    assert_eq!(filters[1].column, "");
    assert_eq!(filters[0].operator, FilterOperator::Contains);
    assert_eq!(enabled_count(&filters), 2);
    set_all_enabled(&mut filters, false);
    assert_eq!(enabled_count(&filters), 0);
    filters[1].enabled = true;
    assert_eq!(enabled_count(&filters), 1);
    set_all_enabled(&mut filters, true);
    assert!(filters.iter().all(|f| f.enabled));
}

#[test]
fn quick_filter_prompt_keys() {
    let columns = vec!["name".to_string(), "age".to_string()];
    let mut q = QuickFilterState::default();
    q.show = true;
    q.pick_column("age");
    assert_eq!(q.input, "age ~ ");
    let enter = KeyInput {
        pressed: vec![Key::Enter],
        modifiers: Modifiers { alt: false, ctrl: false, shift: false, mac_cmd: false, command: false },
    };
    // no value yet: nothing is taken and the prompt stays
    assert!(parse_quick_filter("age ~ ", &columns).is_err());
    assert!(q.handle_keys(&enter, &columns).is_none());
    assert!(q.show);
    assert_eq!(q.input, "age ~ ");
    q.input = "age > 18".to_string();
    let f = q.handle_keys(&enter, &columns).unwrap();
    assert_eq!(f.column, "age");
    assert_eq!(f.operator, FilterOperator::GreaterThan);
    assert_eq!(f.value, "18");
    assert!(!q.show);
    assert!(q.input.is_empty());
    q.show = true;
    q.input = "zzz".to_string();
    let esc = KeyInput { pressed: vec![Key::Escape], modifiers: enter.modifiers };
    assert!(q.handle_keys(&esc, &columns).is_none());
    assert!(!q.show && q.input.is_empty());
}
