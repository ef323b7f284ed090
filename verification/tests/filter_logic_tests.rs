//! AND/OR connectives of filter conditions.

use gridix::ui::components::FilterLogic;

fn default_is_and() {
    let logic = FilterLogic::default();
    assert_eq!(logic, FilterLogic::And);
}

fn toggle_twice() {
    let mut logic = FilterLogic::And;
    logic.toggle();
    assert_eq!(logic, FilterLogic::Or);
    logic.toggle();
    assert_eq!(logic, FilterLogic::And);
}

fn display_names() {
    assert_eq!(FilterLogic::And.display_name(), "AND");
    assert_eq!(FilterLogic::Or.display_name(), "OR");
}

#[test]
fn logic_test_default_is_and() {
    default_is_and();
}

#[test]
fn logic_test_toggle() {
    toggle_twice();
}

#[test]
fn logic_test_display_name() {
    display_names();
}

#[test]
fn ui_tests_test_default_is_and() {
    default_is_and();
}

#[test]
fn ui_tests_test_toggle() {
    toggle_twice();
}

#[test]
fn ui_tests_test_display_name() {
    display_names();
}

#[test]
fn ui_components_tests_test_default_is_and() {
    default_is_and();
}

#[test]
fn ui_components_tests_test_toggle() {
    toggle_twice();
}

#[test]
fn ui_components_tests_test_display_name() {
    display_names();
}

#[test]
fn toggling_or_gives_and() {
    let mut logic = FilterLogic::Or;
    logic.toggle();
    assert_eq!(logic, FilterLogic::And);
}
