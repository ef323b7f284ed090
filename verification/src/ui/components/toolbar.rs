//! What the toolbar asks for, and the themes it offers.
use vstd::prelude::*;
use crate::core_types::ThemePreset;
use crate::ui::input::{Key, KeyInput};

verus! {

/// The toolbar widget.
pub struct Toolbar;

/// The toolbar's requests of one frame.
pub struct ToolbarActions {
    pub refresh_tables: bool,
    pub export: bool,
    pub import: bool,
    pub show_history: bool,
    pub show_help: bool,
    pub toggle_sidebar: bool,
    pub toggle_editor: bool,
    pub show_editor: bool,
    pub theme_changed: Option<ThemePreset>,
    pub toggle_dark_mode: bool,
    pub switch_connection: Option<String>,
    pub switch_database: Option<String>,
    pub switch_table: Option<String>,
    pub open_theme_selector: bool,
    pub zoom_in: bool,
    pub zoom_out: bool,
    pub zoom_reset: bool,
    pub create_table: bool,
    pub create_database: bool,
    pub create_user: bool,
    pub toggle_er_diagram: bool,
    pub show_about: bool,
    pub show_keybindings: bool,
}

impl Default for ToolbarActions {
    fn default() -> (r: Self)
        ensures
            !r.refresh_tables && !r.export && !r.import && !r.show_history && !r.show_help,
            !r.toggle_sidebar && !r.toggle_editor && !r.show_editor && !r.toggle_dark_mode,
            r.theme_changed is None && r.switch_connection is None,
            r.switch_database is None && r.switch_table is None,
            !r.open_theme_selector && !r.zoom_in && !r.zoom_out && !r.zoom_reset,
            !r.create_table && !r.create_database && !r.create_user,
            !r.toggle_er_diagram && !r.show_about && !r.show_keybindings,
    {
        ToolbarActions {
            refresh_tables: false,
            export: false,
            import: false,
            show_history: false,
            show_help: false,
            toggle_sidebar: false,
            toggle_editor: false,
            show_editor: false,
            theme_changed: None,
            toggle_dark_mode: false,
            switch_connection: None,
            switch_database: None,
            switch_table: None,
            open_theme_selector: false,
            zoom_in: false,
            zoom_out: false,
            zoom_reset: false,
            create_table: false,
            create_database: false,
            create_user: false,
            toggle_er_diagram: false,
            show_about: false,
            show_keybindings: false,
        }
    }
}

/// The dark themes, in menu order.
pub open spec fn dark_themes() -> Seq<ThemePreset> {
    seq![
        ThemePreset::TokyoNight,
        ThemePreset::TokyoNightStorm,
        ThemePreset::CatppuccinMocha,
        ThemePreset::CatppuccinMacchiato,
        ThemePreset::CatppuccinFrappe,
        ThemePreset::OneDark,
        ThemePreset::OneDarkVivid,
        ThemePreset::GruvboxDark,
        ThemePreset::Dracula,
        ThemePreset::Nord,
        ThemePreset::SolarizedDark,
        ThemePreset::MonokaiPro,
        ThemePreset::GithubDark,
    ]
}

/// The light themes, in menu order.
pub open spec fn light_themes() -> Seq<ThemePreset> {
    seq![
        ThemePreset::TokyoNightLight,
        ThemePreset::CatppuccinLatte,
        ThemePreset::OneLight,
        ThemePreset::GruvboxLight,
        ThemePreset::SolarizedLight,
        ThemePreset::GithubLight,
    ]
}

/// The themes the theme menu offers in dark or light mode.
pub fn themes_for(is_dark_mode: bool) -> (r: Vec<ThemePreset>)
    ensures
        r@ == (if is_dark_mode {
            dark_themes()
        } else {
            light_themes()
        }),
{
    if is_dark_mode {
        let r = vec![
            ThemePreset::TokyoNight,
            ThemePreset::TokyoNightStorm,
            ThemePreset::CatppuccinMocha,
            ThemePreset::CatppuccinMacchiato,
            ThemePreset::CatppuccinFrappe,
            ThemePreset::OneDark,
            ThemePreset::OneDarkVivid,
            ThemePreset::GruvboxDark,
            ThemePreset::Dracula,
            ThemePreset::Nord,
            ThemePreset::SolarizedDark,
            ThemePreset::MonokaiPro,
            ThemePreset::GithubDark,
        ];
        assert(r@ =~= dark_themes());
        r
    } else {
        let r = vec![
            ThemePreset::TokyoNightLight,
            ThemePreset::CatppuccinLatte,
            ThemePreset::OneLight,
            ThemePreset::GruvboxLight,
            ThemePreset::SolarizedLight,
            ThemePreset::GithubLight,
        ];
        assert(r@ =~= light_themes());
        r
    }
}

/// A dropdown menu between frames: whether it is open and the item under
/// the keyboard cursor.
#[derive(Debug, Clone, Copy, Default)]
pub struct DropdownState {
    pub is_open: bool,
    pub selected_index: usize,
}

/// The theme menu between frames.
#[derive(Debug, Clone, Copy, Default)]
pub struct ThemeComboState {
    pub selected_index: usize,
    pub is_open: bool,
}

/// What a menu's keys ask for: to close it, to take the item under the
/// cursor, and where the cursor goes.
#[derive(Debug, Clone, Copy, PartialEq, Eq, Structural)]
pub struct MenuKeys {
    pub close: bool,
    pub confirm: bool,
    pub new_index: Option<usize>,
}

/// The cursor one item down (`j`/↓) when there is one, or one up (`k`/↑)
/// when the cursor is not on the first; up wins.
pub open spec fn menu_move(i: KeyInput, sel: usize, len: usize) -> Option<usize> {
    if (i.has(Key::K) || i.has(Key::ArrowUp)) && sel > 0 {
        Some((sel - 1) as usize)
    } else if (i.has(Key::J) || i.has(Key::ArrowDown)) && sel + 1 < len {
        Some((sel + 1) as usize)
    } else {
        None
    }
}

/// The keys of the toolbar's menus: the moves, Enter takes the item and
/// closes, Escape closes.
pub open spec fn menu_keys(i: KeyInput, sel: usize, len: usize) -> MenuKeys {
    MenuKeys {
        close: i.has(Key::Enter) || i.has(Key::Escape),
        confirm: i.has(Key::Enter),
        new_index: menu_move(i, sel, len),
    }
}

/// The keys of the theme menu: the moves, `g` to the first theme and `G`
/// to the last (these win), Enter or `l` takes the theme and closes, Escape
/// or `h` closes.
pub open spec fn theme_menu_keys(i: KeyInput, sel: usize, len: usize) -> MenuKeys {
    let g = i.has(Key::G);
    let shift = i.modifiers.shift;
    let confirm = i.has(Key::Enter) || i.has(Key::L);
    MenuKeys {
        close: confirm || i.has(Key::Escape) || i.has(Key::H),
        confirm,
        new_index: if g && shift {
            Some((if len >= 1 { len - 1 } else { 0 }) as usize)
        } else if g {
            Some(0)
        } else {
            menu_move(i, sel, len)
        },
    }
}

fn menu_move_exec(i: &KeyInput, sel: usize, len: usize) -> (r: Option<usize>)
    ensures
        r == menu_move(*i, sel, len),
{
    let mut new_idx: Option<usize> = None;
    if i.key_pressed(Key::J) || i.key_pressed(Key::ArrowDown) {
        let next = sel.saturating_add(1);
        if next < len {
            new_idx = Some(next);
        }
    }
    if (i.key_pressed(Key::K) || i.key_pressed(Key::ArrowUp)) && sel > 0 {
        new_idx = Some(sel - 1);
    }
    new_idx
}

/// The requests after Enter in the "actions" menu with the cursor on `sel`:
/// export (0, only with a result), import (1), ER diagram (2), history (3).
pub open spec fn actions_item_taken(a: ToolbarActions, take: bool, sel: usize, has_result: bool) -> ToolbarActions {
    ToolbarActions {
        export: a.export || (take && sel == 0 && has_result),
        import: a.import || (take && sel == 1),
        toggle_er_diagram: a.toggle_er_diagram || (take && sel == 2),
        show_history: a.show_history || (take && sel == 3),
        ..a
    }
}

fn take_actions_item(actions: &mut ToolbarActions, take: bool, sel: usize, has_result: bool)
    ensures
        *final(actions) == actions_item_taken(*old(actions), take, sel, has_result),
{
    if take && sel == 0 && has_result {
        actions.export = true;
    }
    if take && sel == 1 {
        actions.import = true;
    }
    if take && sel == 2 {
        actions.toggle_er_diagram = true;
    }
    if take && sel == 3 {
        actions.show_history = true;
    }
}

impl Toolbar {
    /// What the keys ask of an open toolbar menu of `len` items.
    pub fn menu_keys(input: &KeyInput, selected_index: usize, len: usize) -> (r: MenuKeys)
        ensures
            r == menu_keys(*input, selected_index, len),
    {
        let confirm = input.key_pressed(Key::Enter);
        let close = confirm || input.key_pressed(Key::Escape);
        MenuKeys { close, confirm, new_index: menu_move_exec(input, selected_index, len) }
    }

    /// What the keys ask of the open theme menu of `len` themes.
    pub fn theme_menu_keys(input: &KeyInput, selected_index: usize, len: usize) -> (r: MenuKeys)
        ensures
            r == theme_menu_keys(*input, selected_index, len),
    {
        let confirm = input.key_pressed(Key::Enter) || input.key_pressed(Key::L);
        let close = confirm || input.key_pressed(Key::Escape) || input.key_pressed(Key::H);
        let mut new_idx = menu_move_exec(input, selected_index, len);
        if input.key_pressed(Key::G) && !input.modifiers.shift {
            new_idx = Some(0);
        }
        if input.key_pressed(Key::G) && input.modifiers.shift {
            new_idx = Some(len.saturating_sub(1));
        }
        MenuKeys { close, confirm, new_index: new_idx }
    }

    /// One frame of keys in the open "actions" menu (export, import, ER
    /// diagram, history): the cursor moves, Enter takes the item under it
    /// (export only when there is a result) and the menu closes on Enter or
    /// Escape. A closed menu is left as it is.
    pub fn actions_menu_keys(
        input: &KeyInput,
        state: &mut DropdownState,
        has_result: bool,
        actions: &mut ToolbarActions,
    )
        ensures
            !old(state).is_open ==> *final(state) == *old(state) && *final(actions) == *old(actions),
            old(state).is_open ==> {
                let k = menu_keys(*input, old(state).selected_index, 4);
                let sel = match k.new_index {
                    Some(n) => n,
                    None => old(state).selected_index,
                };
                let take = k.confirm;
                &&& *final(state) == (DropdownState { is_open: !k.close, selected_index: sel })
                &&& *final(actions) == actions_item_taken(*old(actions), take, sel, has_result)
            },
    {
        if state.is_open {
            let k = Toolbar::menu_keys(input, state.selected_index, 4);
            let sel = match k.new_index {
                Some(n) => n,
                None => state.selected_index,
            };
            *state = DropdownState { is_open: !k.close, selected_index: sel };
            take_actions_item(actions, k.confirm, sel, has_result);
        }
    }

    /// One frame of keys in the open "new" menu (table, database, user): the
    /// cursor moves, Enter takes the item under it, and the menu closes on
    /// Enter or Escape. A closed menu is left as it is.
    pub fn create_menu_keys(input: &KeyInput, state: &mut DropdownState, actions: &mut ToolbarActions)
        ensures
            !old(state).is_open ==> *final(state) == *old(state) && *final(actions) == *old(actions),
            old(state).is_open ==> {
                let k = menu_keys(*input, old(state).selected_index, 3);
                let sel = match k.new_index {
                    Some(n) => n,
                    None => old(state).selected_index,
                };
                let take = k.confirm;
                &&& *final(state) == (DropdownState { is_open: !k.close, selected_index: sel })
                &&& *final(actions) == (ToolbarActions {
                    create_table: old(actions).create_table || (take && sel == 0),
                    create_database: old(actions).create_database || (take && sel == 1),
                    create_user: old(actions).create_user || (take && sel == 2),
                    ..*old(actions)
                })
            },
    {
        if !state.is_open {
            return;
        }
        let k = Toolbar::menu_keys(input, state.selected_index, 3);
        if let Some(n) = k.new_index {
            state.selected_index = n;
        }
        if k.close {
            state.is_open = false;
        }
        let sel = state.selected_index;
        let take = k.confirm;
        actions.create_table = actions.create_table || (take && sel == 0);
        actions.create_database = actions.create_database || (take && sel == 1);
        actions.create_user = actions.create_user || (take && sel == 2);
    }

    /// One frame of keys in the open theme menu of `len` themes: the cursor
    /// moves; on closing, the theme under the cursor is returned when it was
    /// taken. A closed menu is left as it is and returns nothing.
    pub fn theme_menu_step(input: &KeyInput, state: &mut ThemeComboState, len: usize) -> (r: Option<usize>)
        ensures
            !old(state).is_open ==> *final(state) == *old(state) && r is None,
            old(state).is_open ==> {
                let k = theme_menu_keys(*input, old(state).selected_index, len);
                let sel = match k.new_index {
                    Some(n) => n,
                    None => old(state).selected_index,
                };
                &&& *final(state) == (ThemeComboState { selected_index: sel, is_open: !k.close })
                &&& r == (if k.close && k.confirm {
                    Some(sel)
                } else {
                    None
                })
            },
    {
        if !state.is_open {
            return None;
        }
        let k = Toolbar::theme_menu_keys(input, state.selected_index, len);
        if let Some(n) = k.new_index {
            state.selected_index = n;
        }
        let mut result = None;
        if k.close {
            if k.confirm {
                result = Some(state.selected_index);
            }
            state.is_open = false;
        }
        result
    }
}

/// The themes of the menu in dark or light mode.
pub open spec fn mode_themes(is_dark_mode: bool) -> Seq<ThemePreset> {
    if is_dark_mode {
        dark_themes()
    } else {
        light_themes()
    }
}

impl Toolbar {
    /// The row of the current theme in the theme menu of the mode (the
    /// first row when the theme belongs to the other mode).
    pub fn theme_index(is_dark_mode: bool, current: ThemePreset) -> (r: usize)
        ensures
            (exists|i: int| 0 <= i < mode_themes(is_dark_mode).len() && mode_themes(is_dark_mode)[i] == current)
                ==> r < mode_themes(is_dark_mode).len() && mode_themes(is_dark_mode)[r as int] == current
                && forall|j: int| 0 <= j < r ==> mode_themes(is_dark_mode)[j] != current,
            !(exists|i: int| 0 <= i < mode_themes(is_dark_mode).len() && mode_themes(is_dark_mode)[i] == current)
                ==> r == 0,
    {
        let themes = themes_for(is_dark_mode);
        let mut i: usize = 0;
        while i < themes.len()
            invariant
                themes@ == mode_themes(is_dark_mode),
                i <= themes@.len(),
                forall|j: int| 0 <= j < i ==> themes@[j] != current,
            decreases themes@.len() - i,
        {
            if themes[i] == current {
                assert(themes@[i as int] == current);
                return i;
            }
            i = i + 1;
        }
        0
    }

    /// The theme picked in the menu of the mode: the one at `index`, if the
    /// menu has that many rows.
    pub fn picked_theme(is_dark_mode: bool, index: usize) -> (r: Option<ThemePreset>)
        ensures
            r == (if index < mode_themes(is_dark_mode).len() {
                Some(mode_themes(is_dark_mode)[index as int])
            } else {
                None::<ThemePreset>
            }),
    {
        let themes = themes_for(is_dark_mode);
        if index < themes.len() {
            Some(themes[index])
        } else {
            None
        }
    }
}

/// The keys never take a menu's cursor off the menu: from an item, every
/// move lands on an item.
pub proof fn lemma_menu_cursor_stays(i: KeyInput, sel: usize, len: usize)
    requires
        sel < len,
    ensures
        menu_keys(i, sel, len).new_index matches Some(n) ==> n < len,
        theme_menu_keys(i, sel, len).new_index matches Some(n) ==> n < len,
{
}

} // verus!
