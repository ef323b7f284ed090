//! The sidebar's keys, one frame at a time.

use gridix::ui::components::{ColumnFilter, FilterOperator};
use gridix::ui::input::{Key, KeyInput, Modifiers};
use gridix::ui::panels::sidebar::navigation::SidebarLists;
use gridix::ui::panels::{Sidebar, SidebarActions, SidebarFocusTransfer, SidebarSelectionState};
use gridix::ui::SidebarSection;

fn none() -> Modifiers {
    Modifiers { alt: false, ctrl: false, shift: false, mac_cmd: false, command: false }
}

fn keys(pressed: Vec<Key>) -> KeyInput {
    KeyInput { pressed, modifiers: none() }
}

fn shifted(pressed: Vec<Key>) -> KeyInput {
    KeyInput { pressed, modifiers: Modifiers { shift: true, ..none() } }
}

fn strings(v: &[&str]) -> Vec<String> {
    v.iter().map(|s| s.to_string()).collect()
}

fn lists() -> SidebarLists {
    SidebarLists {
        connections: strings(&["local", "prod"]),
        databases: strings(&["app", "logs"]),
        tables: strings(&["users", "orders", "items"]),
        triggers: strings(&["CREATE TRIGGER t1"]),
        routines: vec![],
    }
}

struct Frame {
    sel: SidebarSelectionState,
    buf: String,
    tsi: usize,
    table: Option<String>,
    filters: Vec<ColumnFilter>,
    actions: SidebarActions,
}

fn frame(filters: Vec<ColumnFilter>) -> Frame {
    Frame {
        sel: SidebarSelectionState::default(),
        buf: String::new(),
        tsi: 0,
        table: None,
        filters,
        actions: SidebarActions::default(),
    }
}

fn press(f: &mut Frame, input: &KeyInput, sec: SidebarSection, l: &SidebarLists) {
    f.actions = SidebarActions::default();
    Sidebar::keyboard_frame(
        input,
        true,
        sec,
        &mut f.sel,
        &mut f.buf,
        &mut f.tsi,
        l,
        &mut f.table,
        &mut f.filters,
        &mut f.actions,
    );
}

#[test]
fn sidebar_moves_stop_at_the_ends() {
    let l = lists();
    let mut f = frame(vec![]);
    press(&mut f, &keys(vec![Key::K]), SidebarSection::Tables, &l);
    assert_eq!(f.sel.tables, 0);
    press(&mut f, &keys(vec![Key::J]), SidebarSection::Tables, &l);
    press(&mut f, &keys(vec![Key::J]), SidebarSection::Tables, &l);
    press(&mut f, &keys(vec![Key::J]), SidebarSection::Tables, &l);
    assert_eq!(f.sel.tables, 2);
    press(&mut f, &keys(vec![Key::G]), SidebarSection::Tables, &l);
    assert_eq!(f.sel.tables, 0);
    press(&mut f, &shifted(vec![Key::G]), SidebarSection::Tables, &l);
    assert_eq!(f.sel.tables, 2);
    // the other parts keep their cursors
    assert_eq!((f.sel.connections, f.sel.databases), (0, 0));
}

#[test]
fn sidebar_cursor_past_the_end_is_brought_back() {
    let l = lists();
    let mut f = frame(vec![]);
    f.sel.tables = 9;
    Sidebar::keyboard_frame(
        &keys(vec![]),
        false,
        SidebarSection::Tables,
        &mut f.sel,
        &mut f.buf,
        &mut f.tsi,
        &l,
        &mut f.table,
        &mut f.filters,
        &mut f.actions,
    );
    assert_eq!(f.sel.tables, 2);
}

#[test]
fn sidebar_enter_acts_on_the_item() {
    let l = lists();
    let mut f = frame(vec![]);
    f.sel.tables = 1;
    press(&mut f, &keys(vec![Key::Enter]), SidebarSection::Tables, &l);
    assert_eq!(f.actions.query_table.as_deref(), Some("orders"));
    assert_eq!(f.table.as_deref(), Some("orders"));
    f.sel.connections = 1;
    press(&mut f, &keys(vec![Key::Enter]), SidebarSection::Connections, &l);
    assert_eq!(f.actions.connect.as_deref(), Some("prod"));
    press(&mut f, &keys(vec![Key::Enter]), SidebarSection::Triggers, &l);
    assert_eq!(f.actions.show_trigger_definition.as_deref(), Some("CREATE TRIGGER t1"));
    assert_eq!(f.tsi, 0);
}

#[test]
fn sidebar_delete_rename_and_edit() {
    let l = lists();
    let mut f = frame(vec![]);
    f.sel.tables = 2;
    press(&mut f, &keys(vec![Key::D]), SidebarSection::Tables, &l);
    assert_eq!(f.actions.delete.as_deref(), Some("table:items"));
    press(&mut f, &keys(vec![Key::R]), SidebarSection::Tables, &l);
    assert_eq!(f.actions.rename_item, Some((SidebarSection::Tables, "items".to_string())));
    assert!(!f.actions.refresh);
    press(&mut f, &shifted(vec![Key::R]), SidebarSection::Tables, &l);
    assert!(f.actions.refresh);
    press(&mut f, &keys(vec![Key::E]), SidebarSection::Connections, &l);
    assert_eq!(f.actions.edit_connection.as_deref(), Some("local"));
}

#[test]
fn sidebar_moves_between_parts() {
    let l = lists();
    let mut f = frame(vec![]);
    press(&mut f, &keys(vec![Key::H]), SidebarSection::Tables, &l);
    assert_eq!(f.actions.section_change, Some(SidebarSection::Databases));
    press(&mut f, &keys(vec![Key::L]), SidebarSection::Tables, &l);
    assert_eq!(f.actions.section_change, Some(SidebarSection::Triggers));
    press(&mut f, &keys(vec![Key::L]), SidebarSection::Triggers, &l);
    assert_eq!(f.actions.section_change, None);
    assert_eq!(f.actions.focus_transfer, Some(SidebarFocusTransfer::ToDataGrid));
    press(&mut f, &keys(vec![Key::H]), SidebarSection::Connections, &l);
    assert_eq!(f.actions.section_change, None);
    assert_eq!(f.actions.focus_transfer, None);
    let bare = SidebarLists { databases: vec![], ..lists() };
    press(&mut f, &keys(vec![Key::H]), SidebarSection::Tables, &bare);
    assert_eq!(f.actions.section_change, Some(SidebarSection::Connections));
}

#[test]
fn sidebar_filter_keys() {
    let l = lists();
    let filters = vec![
        ColumnFilter::new("name".to_string()),
        ColumnFilter::new("age".to_string()).with_operator(FilterOperator::GreaterThan),
    ];
    let mut f = frame(filters);
    press(&mut f, &keys(vec![Key::N]), SidebarSection::Filters, &l);
    assert_eq!(f.filters[0].operator, FilterOperator::NotContains);
    assert!(f.actions.filter_changed);
    press(&mut f, &shifted(vec![Key::N]), SidebarSection::Filters, &l);
    assert_eq!(f.filters[0].operator, FilterOperator::Contains);
    press(&mut f, &keys(vec![Key::Space]), SidebarSection::Filters, &l);
    assert!(!f.filters[0].enabled);
    press(&mut f, &keys(vec![Key::S]), SidebarSection::Filters, &l);
    assert!(f.filters[0].case_sensitive);
    press(&mut f, &keys(vec![Key::J]), SidebarSection::Filters, &l);
    press(&mut f, &keys(vec![Key::S]), SidebarSection::Filters, &l);
    assert!(!f.filters[1].case_sensitive);
    assert!(!f.actions.filter_changed);
    press(&mut f, &keys(vec![Key::T, Key::I, Key::W]), SidebarSection::Filters, &l);
    assert_eq!(f.actions.toggle_filter_logic, Some(1));
    assert_eq!(f.actions.focus_filter_input, Some(1));
    assert_eq!(f.actions.cycle_filter_column, Some((1, true)));
    press(&mut f, &keys(vec![Key::X]), SidebarSection::Filters, &l);
    assert_eq!(f.filters.len(), 1);
    assert_eq!(f.filters[0].column, "name");
    assert_eq!(f.sel.filters, 0);
    press(&mut f, &keys(vec![Key::A, Key::C]), SidebarSection::Filters, &l);
    assert!(f.actions.add_filter && f.actions.clear_filters);
}
