//! Query tabs and their manager.

use gridix::ui::components::{title_safe, QueryTab, QueryTabManager};

fn new_tab() {
    let mut manager = QueryTabManager::new();
    assert_eq!(manager.len(), 1);
    manager.new_tab();
    assert_eq!(manager.tabs.len(), 2);
    assert_eq!(manager.active_index(), 1);
}

fn close_tab() {
    let mut manager = QueryTabManager::new();
    manager.new_tab();
    manager.new_tab();
    assert_eq!(manager.len(), 3);
    manager.close_tab(1);
    assert_eq!(manager.tabs.len(), 2);
}

fn cannot_close_last_tab() {
    let mut manager = QueryTabManager::new();
    assert_eq!(manager.len(), 1);
    manager.close_tab(0);
    assert_eq!(manager.tabs.len(), 1);
}

fn extract_title() {
    let tab = QueryTab::from_sql("SELECT * FROM users WHERE id = 1");
    assert_eq!(tab.title(), "查询 users");
    assert_eq!(tab.title, "查询 users");
}

fn tab_for_table() {
    let mut manager = QueryTabManager::new();
    let idx1 = manager.new_tab_for_table("users", "SELECT * FROM users");
    let idx2 = manager.new_tab_for_table("users", "SELECT * FROM users WHERE id = 1");
    assert_eq!(idx1, idx2);
}

#[test]
fn ui_tests_test_new_tab() {
    new_tab();
}

#[test]
fn ui_tests_test_close_tab() {
    close_tab();
}

#[test]
fn ui_tests_test_cannot_close_last_tab() {
    cannot_close_last_tab();
}

#[test]
fn ui_tests_test_extract_title() {
    extract_title();
}

#[test]
fn ui_tests_test_tab_for_table() {
    tab_for_table();
}

#[test]
fn ui_components_tests_test_new_tab() {
    new_tab();
}

#[test]
fn ui_components_tests_test_close_tab() {
    close_tab();
}

#[test]
fn ui_components_tests_test_cannot_close_last_tab() {
    cannot_close_last_tab();
}

#[test]
fn ui_components_tests_test_extract_title() {
    extract_title();
}

#[test]
fn ui_components_tests_test_tab_for_table() {
    tab_for_table();
}

#[test]
fn first_tab_and_new_tab_titles_count_up() {
    let mut manager = QueryTabManager::new();
    assert_eq!(manager.tabs[0].title, "查询 1");
    manager.new_tab();
    assert_eq!(manager.tabs[1].title, "查询 2");
}

#[test]
fn next_and_prev_wrap_around() {
    let mut manager = QueryTabManager::new();
    manager.new_tab();
    manager.new_tab();
    assert_eq!(manager.active_index(), 2);
    manager.next_tab();
    assert_eq!(manager.active_index(), 0);
    manager.prev_tab();
    assert_eq!(manager.active_index(), 2);
    manager.prev_tab();
    manager.next_tab();
    assert_eq!(manager.active_index(), 2);
}

#[test]
fn close_others_and_to_the_right() {
    let mut manager = QueryTabManager::new();
    manager.new_tab();
    manager.new_tab();
    manager.set_active(1);
    manager.close_tabs_to_right();
    assert_eq!(manager.len(), 2);
    manager.close_other_tabs();
    assert_eq!(manager.len(), 1);
    assert_eq!(manager.active_index(), 0);
    assert_eq!(manager.tabs[0].title, "查询 2");
}

#[test]
fn the_limit_reuses_the_active_tab() {
    let mut manager = QueryTabManager::new();
    for _ in 0..30 {
        manager.new_tab();
    }
    assert_eq!(manager.len(), 20);
    let before = manager.active_index();
    manager.new_tab_with_sql("SELECT * FROM orders");
    assert_eq!(manager.len(), 20);
    assert_eq!(manager.active_index(), before);
    assert_eq!(manager.get_active().unwrap().sql, "SELECT * FROM orders");
}

#[test]
fn closing_the_active_tab_moves_left_at_the_end() {
    let mut manager = QueryTabManager::new();
    manager.new_tab();
    manager.new_tab();
    manager.close_active_tab();
    assert_eq!(manager.len(), 2);
    assert_eq!(manager.active_index(), 1);
}

#[test]
fn unsaved_changes_follow_the_modified_flag() {
    let mut manager = QueryTabManager::new();
    assert!(!manager.has_unsaved_changes());
    manager.get_active_mut().unwrap().modified = true;
    assert!(manager.has_unsaved_changes());
}

#[test]
fn new_tabs_get_distinct_identifiers() {
    let mut m = QueryTabManager::new();
    m.new_tab();
    m.new_tab();
    let ids: Vec<String> = m.tabs.iter().map(|t| t.id.clone()).collect();
    assert_eq!(ids.len(), 3);
    assert!(ids.iter().all(|id| id.len() == 36));
    assert!(ids[0] != ids[1] && ids[1] != ids[2] && ids[0] != ids[2]);
}

#[test]
fn title_safe_accepts_plain_queries() {
    assert!(title_safe("SELECT * FROM users"));
    assert!(title_safe("SHOW TABLES"));
    assert!(title_safe(""));
}

#[test]
fn title_safe_refuses_an_offset_inside_a_character() {
    // 'ŉ' upper-cases to two characters, so the end of `FROM` in the
    // upper-cased text falls inside the 'é' of the query.
    assert!(!title_safe("ŉ FROMé"));
    assert!(title_safe("ŉ FROM t"));
}

#[test]
fn checked_sql_tab_opens_like_the_unchecked_one() {
    let mut m = QueryTabManager::new();
    let r = m.new_tab_with_sql_checked("SELECT * FROM users");
    assert_eq!(r, Some(1));
    assert_eq!(m.len(), 2);
    assert_eq!(m.active_index(), 1);
    assert_eq!(m.tabs[1].title, "查询 users");
    assert_eq!(m.tabs[1].sql, "SELECT * FROM users");
    assert!(m.tabs[1].modified);
    assert!(m.tabs[1].table_name.is_none());
}

#[test]
fn checked_sql_tab_leaves_the_manager_alone_when_no_title_can_be_taken() {
    let mut m = QueryTabManager::new();
    let r = m.new_tab_with_sql_checked("ŉ FROMé");
    assert_eq!(r, None);
    assert_eq!(m.len(), 1);
    assert_eq!(m.active_index(), 0);
}

#[test]
fn a_fresh_manager_opens_a_second_tab_for_a_table() {
    let mut m = QueryTabManager::new();
    let i1 = m.new_tab_for_table("users", "SELECT * FROM users");
    let i2 = m.new_tab_for_table("users", "SELECT * FROM users WHERE id = 1");
    assert_eq!(i1, 1);
    assert_eq!(i2, 1);
    assert_eq!(m.len(), 2);
    assert_eq!(m.tabs[1].title, "users");
    assert_eq!(m.tabs[1].sql, "SELECT * FROM users");
    assert!(m.tabs[0].table_name.is_none());
}

#[test]
fn tab_identifiers_are_hyphenated_version_four_uuids() {
    let m = QueryTabManager::new();
    let id: Vec<char> = m.tabs[0].id.chars().collect();
    assert_eq!(id.len(), 36);
    for (i, c) in id.iter().enumerate() {
        if i == 8 || i == 13 || i == 18 || i == 23 {
            assert_eq!(*c, '-');
        } else {
            assert!(c.is_ascii_digit() || ('a'..='f').contains(c));
        }
    }
    assert_eq!(id[14], '4');
    assert!(['8', '9', 'a', 'b'].contains(&id[19]));
}

#[test]
fn whitespace_around_a_table_name_is_not_part_of_the_title() {
    assert_eq!(QueryTab::from_sql("select *\u{3000}from\u{a0}orders\twhere x").title, "查询 orders");
}
