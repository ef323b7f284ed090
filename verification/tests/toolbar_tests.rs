//! The keys of the toolbar's menus.

use gridix::core_types::ThemePreset;
use gridix::ui::components::toolbar::{DropdownState, MenuKeys, ThemeComboState};
use gridix::ui::components::{Toolbar, ToolbarActions};
use gridix::ui::input::{Key, KeyInput, Modifiers};

fn none() -> Modifiers {
    Modifiers { alt: false, ctrl: false, shift: false, mac_cmd: false, command: false }
}

fn keys(pressed: Vec<Key>) -> KeyInput {
    KeyInput { pressed, modifiers: none() }
}

#[test]
fn menu_cursor_stays_in_the_menu() {
    assert_eq!(
        Toolbar::menu_keys(&keys(vec![Key::J]), 0, 4),
        MenuKeys { close: false, confirm: false, new_index: Some(1) }
    );
    assert_eq!(Toolbar::menu_keys(&keys(vec![Key::J]), 3, 4).new_index, None);
    assert_eq!(Toolbar::menu_keys(&keys(vec![Key::K]), 0, 4).new_index, None);
    assert_eq!(Toolbar::menu_keys(&keys(vec![Key::ArrowUp]), 2, 4).new_index, Some(1));
    assert_eq!(
        Toolbar::menu_keys(&keys(vec![Key::Enter]), 2, 4),
        MenuKeys { close: true, confirm: true, new_index: None }
    );
    assert_eq!(
        Toolbar::menu_keys(&keys(vec![Key::Escape]), 2, 4),
        MenuKeys { close: true, confirm: false, new_index: None }
    );
}

#[test]
fn actions_menu_takes_the_item() {
    let mut state = DropdownState { is_open: true, selected_index: 0 };
    let mut actions = ToolbarActions::default();
    Toolbar::actions_menu_keys(&keys(vec![Key::Enter]), &mut state, false, &mut actions);
    assert!(!actions.export);
    assert!(!state.is_open);
    let mut state = DropdownState { is_open: true, selected_index: 2 };
    Toolbar::actions_menu_keys(&keys(vec![Key::J]), &mut state, true, &mut actions);
    assert_eq!(state.selected_index, 3);
    assert!(state.is_open);
    Toolbar::actions_menu_keys(&keys(vec![Key::Enter]), &mut state, true, &mut actions);
    assert!(actions.show_history && !actions.toggle_er_diagram);
    let mut closed = DropdownState { is_open: false, selected_index: 1 };
    let mut none_taken = ToolbarActions::default();
    Toolbar::actions_menu_keys(&keys(vec![Key::Enter]), &mut closed, true, &mut none_taken);
    assert!(!none_taken.import);
    assert_eq!(closed.selected_index, 1);
}

#[test]
fn create_menu_takes_the_item() {
    let mut state = DropdownState { is_open: true, selected_index: 1 };
    let mut actions = ToolbarActions::default();
    Toolbar::create_menu_keys(&keys(vec![Key::Enter]), &mut state, &mut actions);
    assert!(actions.create_database && !actions.create_table && !actions.create_user);
    assert!(!state.is_open);
}

#[test]
fn theme_menu_keys() {
    let mut state = ThemeComboState { selected_index: 4, is_open: true };
    assert_eq!(Toolbar::theme_menu_step(&keys(vec![Key::G]), &mut state, 13), None);
    assert_eq!(state.selected_index, 0);
    let shift_g = KeyInput { pressed: vec![Key::G], modifiers: Modifiers { shift: true, ..none() } };
    assert_eq!(Toolbar::theme_menu_step(&shift_g, &mut state, 13), None);
    assert_eq!(state.selected_index, 12);
    assert_eq!(Toolbar::theme_menu_step(&keys(vec![Key::K, Key::L]), &mut state, 13), Some(11));
    assert!(!state.is_open);
    assert_eq!(Toolbar::theme_menu_step(&keys(vec![Key::Enter]), &mut state, 13), None);
    let mut open = ThemeComboState { selected_index: 5, is_open: true };
    assert_eq!(Toolbar::theme_menu_step(&keys(vec![Key::H]), &mut open, 13), None);
    assert!(!open.is_open);
}

#[test]
fn theme_rows() {
    use_theme_rows();
}

fn use_theme_rows() {
    assert_eq!(Toolbar::theme_index(true, ThemePreset::TokyoNight), 0);
    assert_eq!(Toolbar::theme_index(true, ThemePreset::Dracula), 8);
    assert_eq!(Toolbar::theme_index(true, ThemePreset::GithubLight), 0);
    assert_eq!(Toolbar::theme_index(false, ThemePreset::GithubLight), 5);
    assert_eq!(Toolbar::picked_theme(false, 1), Some(ThemePreset::CatppuccinLatte));
    assert_eq!(Toolbar::picked_theme(false, 6), None);
}
