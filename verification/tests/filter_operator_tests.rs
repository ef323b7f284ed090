//! Whether a cell satisfies an operator.

use gridix::ui::components::{check_filter_match, FilterOperator, NumKey};
use gridix::ui::components::grid::filter::validate_regex;

/// How a text reads as an `f64`, as an order-preserving key.
fn num_key(s: &str) -> NumKey {
    match s.parse::<f64>() {
        Err(_) => NumKey::NotNumber,
        Ok(x) if x.is_nan() => NumKey::NaN,
        Ok(x) => {
            let x = if x == 0.0 { 0.0 } else { x };
            let b = x.to_bits() as i64;
            NumKey::Num(if b < 0 { i64::MIN.wrapping_sub(b) } else { b })
        }
    }
}

fn matches(cell: &str, op: FilterOperator, value: &str, value2: &str, cs: bool) -> bool {
    check_filter_match(cell, num_key(cell), &op, value, num_key(value), value2, num_key(value2), cs)
}

fn contains_operator() {
    assert!(matches("hello world", FilterOperator::Contains, "world", "", false));
    assert!(!matches("hello world", FilterOperator::Contains, "foo", "", false));
}

fn case_sensitivity() {
    assert!(matches("Hello", FilterOperator::Equals, "hello", "", false));
    assert!(!matches("Hello", FilterOperator::Equals, "hello", "", true));
}

fn comparison_operators() {
    assert!(matches("10", FilterOperator::GreaterThan, "5", "", false));
    assert!(!matches("5", FilterOperator::GreaterThan, "10", "", false));
}

fn between() {
    assert!(matches("5", FilterOperator::Between, "1", "10", false));
    assert!(!matches("15", FilterOperator::Between, "1", "10", false));
}

fn in_operator() {
    assert!(matches("apple", FilterOperator::In, "apple, banana, orange", "", false));
    assert!(!matches("grape", FilterOperator::In, "apple, banana, orange", "", false));
}

#[test]
fn ui_tests_test_contains_operator() {
    contains_operator();
}

#[test]
fn ui_tests_test_case_sensitivity() {
    case_sensitivity();
}

#[test]
fn ui_tests_test_comparison_operators() {
    comparison_operators();
}

#[test]
fn ui_tests_test_between() {
    between();
}

#[test]
fn ui_tests_test_in_operator() {
    in_operator();
}

#[test]
fn ui_components_tests_test_contains_operator() {
    contains_operator();
}

#[test]
fn ui_components_tests_test_case_sensitivity() {
    case_sensitivity();
}

#[test]
fn ui_components_tests_test_comparison_operators() {
    comparison_operators();
}

#[test]
fn ui_components_tests_test_between() {
    between();
}

#[test]
fn ui_components_tests_test_in_operator() {
    in_operator();
}

#[test]
fn text_comparison_when_not_numbers() {
    assert!(matches("banana", FilterOperator::GreaterThan, "apple", "", false));
    assert!(!matches("apple", FilterOperator::GreaterThan, "banana", "", false));
}

#[test]
fn null_and_empty_operators() {
    assert!(matches("NULL", FilterOperator::IsNull, "", "", false));
    assert!(!matches("", FilterOperator::IsNull, "", "", false));
    assert!(!matches("x", FilterOperator::IsNull, "", "", false));
    assert!(matches("", FilterOperator::IsEmpty, "", "", false));
    assert!(matches("NULL", FilterOperator::IsEmpty, "", "", false));
    assert!(matches("x", FilterOperator::IsNotEmpty, "", "", false));
}

#[test]
fn starts_and_ends_with() {
    assert!(matches("Hello", FilterOperator::StartsWith, "he", "", false));
    assert!(!matches("Hello", FilterOperator::StartsWith, "he", "", true));
    assert!(matches("Hello", FilterOperator::EndsWith, "LLO", "", false));
}

#[test]
fn regex_operator_uses_the_regex_crate() {
    assert!(matches("abc123", FilterOperator::Regex, "^[a-z]+[0-9]+$", "", true));
    assert!(!matches("abc", FilterOperator::Regex, "^[0-9]+$", "", true));
    assert!(validate_regex("[a-z").is_some());
    assert!(validate_regex("^a+$").is_none());
    assert!(validate_regex("").is_none());
    assert_eq!(validate_regex(&"a".repeat(101)), Some("正则表达式过长 (最大100字符)".to_string()));
}

#[test]
fn operator_groups_and_names() {
    assert_eq!(FilterOperator::all().len(), 19);
    assert_eq!(FilterOperator::text_operators().len(), 6);
    assert_eq!(FilterOperator::comparison_operators().len(), 6);
    assert_eq!(FilterOperator::set_operators().len(), 2);
    assert_eq!(FilterOperator::null_operators().len(), 4);
    assert!(FilterOperator::Between.needs_second_value());
    assert!(!FilterOperator::IsNull.needs_value());
}

#[test]
fn texts_compare_in_the_order_asked_for() {
    assert!(matches("apple", FilterOperator::LessThan, "banana", "", false));
    assert!(!matches("banana", FilterOperator::LessThan, "apple", "", false));
    assert!(matches("apple", FilterOperator::LessOrEqual, "apple", "", false));
    assert!(!matches("banana", FilterOperator::LessOrEqual, "apple", "", false));
    assert!(matches("banana", FilterOperator::GreaterOrEqual, "apple", "", false));
    assert!(!matches("apple", FilterOperator::GreaterOrEqual, "banana", "", false));
    assert!(matches("banana", FilterOperator::GreaterThan, "apple", "", false));
    assert!(!matches("apple", FilterOperator::GreaterThan, "apple", "", false));
}

#[test]
fn a_leading_space_keeps_a_cell_from_reading_as_a_number() {
    // " 9" does not parse as a number, so "10" and " 9" compare as texts.
    assert!(matches(" 9", FilterOperator::LessThan, "10", "", false));
    assert!(matches("9", FilterOperator::LessThan, "10", "", true));
    assert!(!matches(" 9", FilterOperator::GreaterThan, "10", "", false));
}

#[test]
fn operator_labels_are_present_and_distinct() {
    let ops = FilterOperator::all();
    assert_eq!(ops.len(), 19);
    let names: Vec<&str> = ops.iter().map(|o| o.display_name()).collect();
    for (i, a) in names.iter().enumerate() {
        assert!(!a.is_empty());
        for b in names.iter().skip(i + 1) {
            assert_ne!(a, b);
        }
    }
    assert_eq!(FilterOperator::Between.display_name(), "介于");
    assert_eq!(FilterOperator::IsNull.display_name(), "为 NULL");
}
