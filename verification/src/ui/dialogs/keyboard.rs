//! The keyboard conventions shared by every dialog, list and panel: which
//! keys confirm, cancel, move in a list or move sideways.
use vstd::prelude::*;
use crate::ui::input::{Key, KeyInput};

verus! {

/// What a dialog's keys asked for.
#[derive(Debug, Clone, Copy, PartialEq, Eq, Structural)]
pub enum DialogAction {
    Idle,
    Confirm,
    Cancel,
}

/// A move in a list.
#[derive(Debug, Clone, Copy, PartialEq, Eq, Structural)]
pub enum ListNavigation {
    Idle,
    Up,
    Down,
    Start,
    End,
    PageUp,
    PageDown,
    /// Toggle the item (Space).
    Toggle,
    /// Delete the item (d).
    Delete,
    /// Add below (o).
    AddBelow,
    /// Add above (O).
    AddAbove,
}

/// A move sideways.
#[derive(Debug, Clone, Copy, PartialEq, Eq, Structural)]
pub enum HorizontalNavigation {
    Idle,
    Left,
    Right,
}

impl Default for DialogAction {
    fn default() -> (r: Self)
        ensures
            r == DialogAction::Idle,
    {
        DialogAction::Idle
    }
}

impl Default for ListNavigation {
    fn default() -> (r: Self)
        ensures
            r == ListNavigation::Idle,
    {
        ListNavigation::Idle
    }
}

impl Default for HorizontalNavigation {
    fn default() -> (r: Self)
        ensures
            r == HorizontalNavigation::Idle,
    {
        HorizontalNavigation::Idle
    }
}

/// Escape, or `q` with no modifier, closes.
pub open spec fn closes(i: KeyInput) -> bool {
    i.has(Key::Escape) || (i.has(Key::Q) && i.modifiers.none_held())
}

/// Enter or `y` (no modifier) confirm; Escape, `q` or `n` (no modifier)
/// cancel; the first of these in that order wins.
pub open spec fn dialog_action(i: KeyInput) -> DialogAction {
    let bare = i.modifiers.none_held();
    if i.has(Key::Enter) && bare {
        DialogAction::Confirm
    } else if i.has(Key::Escape) {
        DialogAction::Cancel
    } else if i.has(Key::Q) && bare {
        DialogAction::Cancel
    } else if i.has(Key::Y) && bare {
        DialogAction::Confirm
    } else if i.has(Key::N) && bare {
        DialogAction::Cancel
    } else {
        DialogAction::Idle
    }
}

/// `j`/↓ down, `k`/↑ up, `G` end, `g` start, PageUp, PageDown, Space toggle,
/// `d` (no modifier) delete, `o` add below, `O` add above, Home, End; the
/// first of these in that order wins.
pub open spec fn list_navigation(i: KeyInput) -> ListNavigation {
    let shift = i.modifiers.shift;
    if i.has(Key::J) || i.has(Key::ArrowDown) {
        ListNavigation::Down
    } else if i.has(Key::K) || i.has(Key::ArrowUp) {
        ListNavigation::Up
    } else if i.has(Key::G) && shift {
        ListNavigation::End
    } else if i.has(Key::G) && !shift {
        ListNavigation::Start
    } else if i.has(Key::PageUp) {
        ListNavigation::PageUp
    } else if i.has(Key::PageDown) {
        ListNavigation::PageDown
    } else if i.has(Key::Space) {
        ListNavigation::Toggle
    } else if i.has(Key::D) && i.modifiers.none_held() {
        ListNavigation::Delete
    } else if i.has(Key::O) && !shift {
        ListNavigation::AddBelow
    } else if i.has(Key::O) && shift {
        ListNavigation::AddAbove
    } else if i.has(Key::Home) {
        ListNavigation::Start
    } else if i.has(Key::End) {
        ListNavigation::End
    } else {
        ListNavigation::Idle
    }
}

/// `h`/← left, `l`/→ right, left first.
pub open spec fn horizontal_navigation(i: KeyInput) -> HorizontalNavigation {
    if i.has(Key::H) || i.has(Key::ArrowLeft) {
        HorizontalNavigation::Left
    } else if i.has(Key::L) || i.has(Key::ArrowRight) {
        HorizontalNavigation::Right
    } else {
        HorizontalNavigation::Idle
    }
}

/// Whether the keys close a dialog or panel.
pub fn handle_close_keys(i: &KeyInput) -> (r: bool)
    ensures
        r == closes(*i),
{
    i.key_pressed(Key::Escape) || (i.key_pressed(Key::Q) && i.modifiers.is_none())
}

/// What a dialog's keys ask for.
pub fn handle_dialog_keys(i: &KeyInput) -> (r: DialogAction)
    ensures
        r == dialog_action(*i),
{
    let bare = i.modifiers.is_none();
    if i.key_pressed(Key::Enter) && bare {
        return DialogAction::Confirm;
    }
    if i.key_pressed(Key::Escape) {
        return DialogAction::Cancel;
    }
    if i.key_pressed(Key::Q) && bare {
        return DialogAction::Cancel;
    }
    if i.key_pressed(Key::Y) && bare {
        return DialogAction::Confirm;
    }
    if i.key_pressed(Key::N) && bare {
        return DialogAction::Cancel;
    }
    DialogAction::Idle
}

/// The keys of a confirmation dialog, which are those of any dialog.
pub fn handle_confirm_keys(i: &KeyInput) -> (r: DialogAction)
    ensures
        r == dialog_action(*i),
{
    handle_dialog_keys(i)
}

/// The move in a list the keys ask for.
pub fn handle_list_navigation(i: &KeyInput) -> (r: ListNavigation)
    ensures
        r == list_navigation(*i),
{
    let shift = i.modifiers.shift;
    if i.key_pressed(Key::J) || i.key_pressed(Key::ArrowDown) {
        return ListNavigation::Down;
    }
    if i.key_pressed(Key::K) || i.key_pressed(Key::ArrowUp) {
        return ListNavigation::Up;
    }
    if i.key_pressed(Key::G) && shift {
        return ListNavigation::End;
    }
    if i.key_pressed(Key::G) && !shift {
        return ListNavigation::Start;
    }
    if i.key_pressed(Key::PageUp) {
        return ListNavigation::PageUp;
    }
    if i.key_pressed(Key::PageDown) {
        return ListNavigation::PageDown;
    }
    if i.key_pressed(Key::Space) {
        return ListNavigation::Toggle;
    }
    if i.key_pressed(Key::D) && i.modifiers.is_none() {
        return ListNavigation::Delete;
    }
    if i.key_pressed(Key::O) && !shift {
        return ListNavigation::AddBelow;
    }
    if i.key_pressed(Key::O) && shift {
        return ListNavigation::AddAbove;
    }
    if i.key_pressed(Key::Home) {
        return ListNavigation::Start;
    }
    if i.key_pressed(Key::End) {
        return ListNavigation::End;
    }
    ListNavigation::Idle
}

/// The sideways move the keys ask for.
pub fn handle_horizontal_navigation(i: &KeyInput) -> (r: HorizontalNavigation)
    ensures
        r == horizontal_navigation(*i),
{
    if i.key_pressed(Key::H) || i.key_pressed(Key::ArrowLeft) {
        return HorizontalNavigation::Left;
    }
    if i.key_pressed(Key::L) || i.key_pressed(Key::ArrowRight) {
        return HorizontalNavigation::Right;
    }
    HorizontalNavigation::Idle
}

} // verus!
