//! Row filtering with its cache.

use gridix::database::QueryResult;
use gridix::ui::components::grid::filter::{filter_rows_cached, FilterCache, NumericKeys};
use gridix::ui::components::{ColumnFilter, FilterOperator, NumKey};

/// How a text reads as an `f64`, as an order-preserving key.
fn num_key(s: &str) -> NumKey {
    match s.parse::<f64>() {
        Err(_) => NumKey::NotNumber,
        Ok(x) if x.is_nan() => NumKey::NaN,
        Ok(x) => {
            let x = if x == 0.0 { 0.0 } else { x };
            let b = x.to_bits() as i64;
            NumKey::Num(if b < 0 { i64::MIN.wrapping_sub(b) } else { b })
        }
    }
}

fn keys_for(result: &QueryResult, filters: &[ColumnFilter]) -> NumericKeys {
    NumericKeys {
        cells: result
            .rows
            .iter()
            .map(|r| r.iter().map(|c| num_key(c)).collect())
            .collect(),
        values: filters.iter().map(|f| num_key(&f.value)).collect(),
        values2: filters.iter().map(|f| num_key(&f.value2)).collect(),
    }
}

fn sample_result() -> QueryResult {
    QueryResult {
        columns: vec!["id".to_string(), "name".to_string(), "age".to_string()],
        rows: vec![
            vec!["1".to_string(), "Alice".to_string(), "30".to_string()],
            vec!["2".to_string(), "Bob".to_string(), "25".to_string()],
            vec!["3".to_string(), "Charlie".to_string(), "35".to_string()],
        ],
        affected_rows: 0,
    }
}

fn run_no_filters() {
    let result = sample_result();
    let mut cache = FilterCache::new();
    let keys = keys_for(&result, &[]);
    let filtered = filter_rows_cached(&result, &keys, "", &None, &[], &mut cache);
    assert_eq!(filtered.len(), 3);
}

fn run_search_filter() {
    let result = sample_result();
    let mut cache = FilterCache::new();
    let keys = keys_for(&result, &[]);
    let filtered = filter_rows_cached(&result, &keys, "Alice", &None, &[], &mut cache);
    assert_eq!(filtered.len(), 1);
    assert_eq!(filtered[0].1[1], "Alice");
}

fn run_column_filter() {
    let result = sample_result();
    let mut cache = FilterCache::new();
    let filter = ColumnFilter::new("age".to_string())
        .with_operator(FilterOperator::GreaterThan)
        .with_value("28".to_string());
    let filters = [filter];
    let keys = keys_for(&result, &filters);
    let filtered = filter_rows_cached(&result, &keys, "", &None, &filters, &mut cache);
    assert_eq!(filtered.len(), 2);
}

fn run_cache_validity(check: fn(&FilterCache) -> bool) {
    let result = sample_result();
    let mut cache = FilterCache::new();
    let keys = keys_for(&result, &[]);
    let _ = filter_rows_cached(&result, &keys, "Alice", &None, &[], &mut cache);
    assert!(check(&cache));
    let filtered = filter_rows_cached(&result, &keys, "Alice", &None, &[], &mut cache);
    assert_eq!(filtered.len(), 1);
    let filtered = filter_rows_cached(&result, &keys, "Bob", &None, &[], &mut cache);
    assert_eq!(filtered.len(), 1);
    assert_eq!(filtered[0].1[1], "Bob");
}

#[test]
fn cache_test_no_filters() {
    run_no_filters();
}

#[test]
fn cache_test_search_filter() {
    run_search_filter();
}

#[test]
fn cache_test_column_filter() {
    run_column_filter();
}

#[test]
fn cache_test_cache_validity() {
    run_cache_validity(|c| c.valid);
}

#[test]
fn ui_tests_test_no_filters() {
    run_no_filters();
}

#[test]
fn ui_tests_test_search_filter() {
    run_search_filter();
}

#[test]
fn ui_tests_test_column_filter() {
    run_column_filter();
}

#[test]
fn ui_tests_test_cache_validity() {
    run_cache_validity(|c| c.is_valid());
}

#[test]
fn ui_components_tests_test_no_filters() {
    run_no_filters();
}

#[test]
fn ui_components_tests_test_search_filter() {
    run_search_filter();
}

#[test]
fn ui_components_tests_test_column_filter() {
    run_column_filter();
}

#[test]
fn ui_components_tests_test_cache_validity() {
    run_cache_validity(|c| c.is_valid());
}

#[test]
fn cached_rows_follow_the_data_after_invalidate() {
    let mut result = sample_result();
    let mut cache = FilterCache::new();
    let keys = keys_for(&result, &[]);
    let filtered = filter_rows_cached(&result, &keys, "", &None, &[], &mut cache);
    assert_eq!(filtered.len(), 3);
    result.rows.push(vec!["4".to_string(), "Dora".to_string(), "41".to_string()]);
    let keys = keys_for(&result, &[]);
    cache.invalidate();
    assert!(!cache.is_valid());
    let filtered = filter_rows_cached(&result, &keys, "", &None, &[], &mut cache);
    assert_eq!(filtered.len(), 4);
}

#[test]
fn search_in_one_column_only() {
    let result = sample_result();
    let mut cache = FilterCache::new();
    let keys = keys_for(&result, &[]);
    let filtered =
        filter_rows_cached(&result, &keys, "3", &Some("age".to_string()), &[], &mut cache);
    assert_eq!(filtered.len(), 2);
    assert_eq!(filtered[0].0, 0);
    assert_eq!(filtered[1].0, 2);
}

#[test]
fn changed_conditions_miss_the_cache() {
    let result = sample_result();
    let mut cache = FilterCache::new();
    let mut filters = vec![ColumnFilter::new("name".to_string()).with_value("li".to_string())];
    let keys = keys_for(&result, &filters);
    let first: Vec<usize> =
        filter_rows_cached(&result, &keys, "", &None, &filters, &mut cache).iter().map(|p| p.0).collect();
    assert_eq!(first, vec![0, 2]);
    filters[0].value = "bo".to_string();
    let keys = keys_for(&result, &filters);
    let second: Vec<usize> =
        filter_rows_cached(&result, &keys, "", &None, &filters, &mut cache).iter().map(|p| p.0).collect();
    assert_eq!(second, vec![1]);
    filters[0].operator = FilterOperator::NotContains;
    let keys = keys_for(&result, &filters);
    let third: Vec<usize> =
        filter_rows_cached(&result, &keys, "", &None, &filters, &mut cache).iter().map(|p| p.0).collect();
    assert_eq!(third, vec![0, 2]);
    filters[0].enabled = false;
    let keys = keys_for(&result, &filters);
    assert_eq!(filter_rows_cached(&result, &keys, "", &None, &filters, &mut cache).len(), 3);
}
