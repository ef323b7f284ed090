//! The sidebar's keys: moving in a list (`j`/`k`, `gg`/`G`), between its
//! parts (`h`/`l`), and acting on the item under the cursor (Enter, `d`,
//! `e`, `r`, `R`, `gs`, and the filter keys of the filter part).
use vstd::prelude::*;
use crate::text::{concat2, str_eq, views};
use crate::ui::SidebarSection;
use crate::ui::input::{Key, KeyInput};
use crate::ui::dialogs::keyboard::{
    handle_horizontal_navigation, handle_list_navigation, horizontal_navigation, list_navigation,
    HorizontalNavigation, ListNavigation,
};
use crate::ui::components::grid::filter::{ColumnFilter, FilterOperator};
use crate::ui::components::grid::state::{filter_view, FilterView};
use super::{next_operator, operator_after, operator_before, prev_operator, Sidebar};
use super::actions::{SidebarActions, SidebarActionsView, SidebarFocusTransfer};
use super::state::SidebarSelectionState;

verus! {

/// What the sidebar's keys read of the connections and of the lower panels:
/// the names of the saved connections, in the order shown; the databases and
/// tables of the active connection (empty when none is active); and the
/// definitions of the triggers and of the routines listed.
pub struct SidebarLists {
    pub connections: Vec<String>,
    pub databases: Vec<String>,
    pub tables: Vec<String>,
    pub triggers: Vec<String>,
    pub routines: Vec<String>,
}

/// The model of the lists: each by its texts.
pub struct ListsView {
    pub connections: Seq<Seq<char>>,
    pub databases: Seq<Seq<char>>,
    pub tables: Seq<Seq<char>>,
    pub triggers: Seq<Seq<char>>,
    pub routines: Seq<Seq<char>>,
}

impl View for SidebarLists {
    type V = ListsView;

    open spec fn view(&self) -> ListsView {
        ListsView {
            connections: views(self.connections@),
            databases: views(self.databases@),
            tables: views(self.tables@),
            triggers: views(self.triggers@),
            routines: views(self.routines@),
        }
    }
}

/// The model of what the sidebar's keys change: the selected index of each
/// part, the prefix typed (`g`), the trigger index kept for the trigger
/// panel, the table picked, the filter conditions and the requests.
#[verifier::ext_equal]
pub struct NavView {
    pub selection: SidebarSelectionState,
    pub command_buffer: Seq<char>,
    pub trigger_selected_index: usize,
    pub selected_table: Option<Seq<char>>,
    pub filters: Seq<FilterView>,
    pub actions: SidebarActionsView,
}

/// The model of the values the keys work on.
pub open spec fn nav_view(
    selection: SidebarSelectionState,
    command_buffer: String,
    trigger_selected_index: usize,
    selected_table: Option<String>,
    filters: Vec<ColumnFilter>,
    actions: SidebarActions,
) -> NavView {
    NavView {
        selection,
        command_buffer: command_buffer@,
        trigger_selected_index,
        selected_table: match selected_table {
            Some(t) => Some(t@),
            None => None,
        },
        filters: filters@.map_values(|f: ColumnFilter| filter_view(f)),
        actions: actions@,
    }
}

/// The selected index of a part.
pub open spec fn selected(s: SidebarSelectionState, sec: SidebarSection) -> usize {
    match sec {
        SidebarSection::Connections => s.connections,
        SidebarSection::Databases => s.databases,
        SidebarSection::Tables => s.tables,
        SidebarSection::Triggers => s.triggers,
        SidebarSection::Routines => s.routines,
        SidebarSection::Filters => s.filters,
    }
}

/// The selection with the index of one part replaced.
pub open spec fn with_selected(
    s: SidebarSelectionState,
    sec: SidebarSection,
    v: usize,
) -> SidebarSelectionState {
    match sec {
        SidebarSection::Connections => SidebarSelectionState { connections: v, ..s },
        SidebarSection::Databases => SidebarSelectionState { databases: v, ..s },
        SidebarSection::Tables => SidebarSelectionState { tables: v, ..s },
        SidebarSection::Triggers => SidebarSelectionState { triggers: v, ..s },
        SidebarSection::Routines => SidebarSelectionState { routines: v, ..s },
        SidebarSection::Filters => SidebarSelectionState { filters: v, ..s },
    }
}

/// The item at `i`, if there is one.
pub open spec fn item(v: Seq<Seq<char>>, i: usize) -> Option<Seq<char>> {
    if i < v.len() {
        Some(v[i as int])
    } else {
        None
    }
}

/// The number of items in a part.
pub open spec fn item_count(sec: SidebarSection, l: ListsView, filters: Seq<FilterView>) -> nat {
    match sec {
        SidebarSection::Connections => l.connections.len(),
        SidebarSection::Databases => l.databases.len(),
        SidebarSection::Tables => l.tables.len(),
        SidebarSection::Triggers => l.triggers.len(),
        SidebarSection::Routines => l.routines.len(),
        SidebarSection::Filters => filters.len(),
    }
}

/// The text and list operators honour the case-sensitivity switch.
pub open spec fn honours_case(op: FilterOperator) -> bool {
    op is Contains || op is NotContains || op is Equals || op is NotEquals || op is StartsWith
        || op is EndsWith || op is In || op is NotIn
}

/// The condition at `i` switched on or off.
pub open spec fn toggled(fs: Seq<FilterView>, i: int) -> Seq<FilterView> {
    fs.update(i, FilterView { enabled: !fs[i].enabled, ..fs[i] })
}

/// The requests with `filter_changed` set.
pub open spec fn changed(a: SidebarActionsView) -> SidebarActionsView {
    SidebarActionsView { filter_changed: true, ..a }
}

// ---------------------------------------------------------------------------
// Moving in a list
// ---------------------------------------------------------------------------

/// The index of the last item (0 for an empty list).
pub open spec fn last_index(count: usize) -> usize {
    if count >= 1 {
        (count - 1) as usize
    } else {
        0
    }
}

/// The cursor of the part set to `i`, the typed prefix dropped.
pub open spec fn moved_to(v: NavView, sec: SidebarSection, i: usize) -> NavView {
    NavView { selection: with_selected(v.selection, sec, i), command_buffer: seq![], ..v }
}

/// What `d` deletes (also what the list's Delete move does), as the new
/// filter conditions and requests: the connection or the table under the
/// cursor is asked to be deleted (a table as `table:` and its name); the
/// filter condition under the cursor is removed.
pub open spec fn delete_effect(
    fs: Seq<FilterView>,
    a: SidebarActionsView,
    sec: SidebarSection,
    idx: usize,
    l: ListsView,
) -> (Seq<FilterView>, SidebarActionsView) {
    match sec {
        SidebarSection::Connections => match item(l.connections, idx) {
            Some(n) => (fs, SidebarActionsView { delete: Some(n), ..a }),
            None => (fs, a),
        },
        SidebarSection::Tables => match item(l.tables, idx) {
            Some(t) => (fs, SidebarActionsView { delete: Some("table:"@ + t), ..a }),
            None => (fs, a),
        },
        SidebarSection::Filters => if idx < fs.len() {
            (fs.remove(idx as int), changed(a))
        } else {
            (fs, a)
        },
        _ => (fs, a),
    }
}

/// The list's Delete move (`d`) on the item at `idx`.
pub open spec fn delete_step(v: NavView, sec: SidebarSection, idx: usize, l: ListsView) -> NavView {
    let (fs, a) = delete_effect(v.filters, v.actions, sec, idx, l);
    NavView { filters: fs, actions: a, ..v }
}

/// A move in the list: down and up stop at the ends, `gg`/Home and
/// `G`/End jump; each drops the typed prefix. Space switches the filter
/// condition under the cursor on or off; `d` deletes.
pub open spec fn list_step(
    v: NavView,
    nav: ListNavigation,
    sec: SidebarSection,
    count: usize,
    l: ListsView,
) -> NavView {
    let idx = selected(v.selection, sec);
    let last = last_index(count);
    match nav {
        ListNavigation::Down => moved_to(
            v,
            sec,
            if idx + 1 <= last {
                (idx + 1) as usize
            } else {
                last
            },
        ),
        ListNavigation::Up => moved_to(
            v,
            sec,
            if idx >= 1 {
                (idx - 1) as usize
            } else {
                0
            },
        ),
        ListNavigation::Start => moved_to(v, sec, 0),
        ListNavigation::End => moved_to(v, sec, last),
        ListNavigation::Toggle => if sec == SidebarSection::Filters && idx < v.filters.len() {
            NavView { filters: toggled(v.filters, idx as int), actions: changed(v.actions), ..v }
        } else {
            v
        },
        ListNavigation::Delete => delete_step(v, sec, idx, l),
        _ => v,
    }
}

// ---------------------------------------------------------------------------
// Moving between parts
// ---------------------------------------------------------------------------

/// The part above (`h`): routines, triggers, filters, tables, then the
/// databases when the active connection lists any, else the connections.
pub open spec fn section_left(sec: SidebarSection, l: ListsView) -> Option<SidebarSection> {
    match sec {
        SidebarSection::Routines => Some(SidebarSection::Triggers),
        SidebarSection::Triggers => Some(SidebarSection::Filters),
        SidebarSection::Filters => Some(SidebarSection::Tables),
        SidebarSection::Tables => if l.databases.len() > 0 {
            Some(SidebarSection::Databases)
        } else {
            Some(SidebarSection::Connections)
        },
        SidebarSection::Databases => Some(SidebarSection::Connections),
        SidebarSection::Connections => None,
    }
}

/// The part below (`l`): the next one down that has items, if any.
pub open spec fn section_right(
    sec: SidebarSection,
    l: ListsView,
    filters: Seq<FilterView>,
) -> Option<SidebarSection> {
    let has_databases = l.databases.len() > 0;
    let has_tables = l.tables.len() > 0;
    let has_filters = filters.len() > 0;
    let has_triggers = l.triggers.len() > 0;
    let has_routines = l.routines.len() > 0;
    match sec {
        SidebarSection::Connections => if has_databases {
            Some(SidebarSection::Databases)
        } else if has_tables {
            Some(SidebarSection::Tables)
        } else {
            None
        },
        SidebarSection::Databases => if has_tables {
            Some(SidebarSection::Tables)
        } else {
            None
        },
        SidebarSection::Tables => if has_filters {
            Some(SidebarSection::Filters)
        } else if has_triggers {
            Some(SidebarSection::Triggers)
        } else if has_routines {
            Some(SidebarSection::Routines)
        } else {
            None
        },
        SidebarSection::Filters => if has_triggers {
            Some(SidebarSection::Triggers)
        } else if has_routines {
            Some(SidebarSection::Routines)
        } else {
            None
        },
        SidebarSection::Triggers => if has_routines {
            Some(SidebarSection::Routines)
        } else {
            None
        },
        SidebarSection::Routines => None,
    }
}

/// A move sideways: `h` asks for the part above, if any; `l` for the part
/// below, or, with none below, hands the keyboard to the grid.
pub open spec fn horizontal_step(
    v: NavView,
    h: HorizontalNavigation,
    sec: SidebarSection,
    l: ListsView,
) -> NavView {
    match h {
        HorizontalNavigation::Left => match section_left(sec, l) {
            Some(s) => NavView {
                actions: SidebarActionsView { section_change: Some(s), ..v.actions },
                ..v
            },
            None => v,
        },
        HorizontalNavigation::Right => match section_right(sec, l, v.filters) {
            Some(s) => NavView {
                actions: SidebarActionsView { section_change: Some(s), ..v.actions },
                ..v
            },
            None => NavView {
                actions: SidebarActionsView {
                    focus_transfer: Some(SidebarFocusTransfer::ToDataGrid),
                    ..v.actions
                },
                ..v
            },
        },
        HorizontalNavigation::Idle => v,
    }
}

// ---------------------------------------------------------------------------
// Acting on the item
// ---------------------------------------------------------------------------

/// `gs`: the table under the cursor is asked to show its structure (in the
/// table part); the prefix is dropped in any part.
pub open spec fn schema_step(v: NavView, i: KeyInput, sec: SidebarSection, l: ListsView) -> NavView {
    if i.has(Key::S) && v.command_buffer == "g"@ {
        let a = if sec == SidebarSection::Tables {
            match item(l.tables, selected(v.selection, sec)) {
                Some(t) => SidebarActionsView { show_table_schema: Some(t), ..v.actions },
                None => v.actions,
            }
        } else {
            v.actions
        };
        NavView { actions: a, command_buffer: seq![], ..v }
    } else {
        v
    }
}

/// Enter: connect, pick the database, open the table (and remember it),
/// show the trigger's or the routine's definition, or switch the filter
/// condition on or off.
pub open spec fn enter_step(v: NavView, i: KeyInput, sec: SidebarSection, l: ListsView) -> NavView {
    if i.has(Key::Enter) {
        let idx = selected(v.selection, sec);
        match sec {
            SidebarSection::Connections => match item(l.connections, idx) {
                Some(n) => NavView {
                    actions: SidebarActionsView { connect: Some(n), ..v.actions },
                    ..v
                },
                None => v,
            },
            SidebarSection::Databases => match item(l.databases, idx) {
                Some(d) => NavView {
                    actions: SidebarActionsView { select_database: Some(d), ..v.actions },
                    ..v
                },
                None => v,
            },
            SidebarSection::Tables => match item(l.tables, idx) {
                Some(t) => NavView {
                    actions: SidebarActionsView { query_table: Some(t), ..v.actions },
                    selected_table: Some(t),
                    ..v
                },
                None => v,
            },
            SidebarSection::Triggers => match item(l.triggers, idx) {
                Some(d) => NavView {
                    actions: SidebarActionsView { show_trigger_definition: Some(d), ..v.actions },
                    ..v
                },
                None => v,
            },
            SidebarSection::Routines => match item(l.routines, idx) {
                Some(d) => NavView {
                    actions: SidebarActionsView { show_routine_definition: Some(d), ..v.actions },
                    ..v
                },
                None => v,
            },
            SidebarSection::Filters => if idx < v.filters.len() {
                NavView {
                    filters: toggled(v.filters, idx as int),
                    actions: changed(v.actions),
                    ..v
                }
            } else {
                v
            },
        }
    } else {
        v
    }
}

/// The filter condition under the cursor removed, the cursor kept on the
/// last condition when it was past the end.
pub open spec fn removed_at_cursor(v: NavView, sec: SidebarSection) -> NavView {
    let idx = selected(v.selection, sec);
    if idx < v.filters.len() {
        let fs = v.filters.remove(idx as int);
        let idx2 = if idx >= fs.len() && fs.len() > 0 {
            (fs.len() - 1) as usize
        } else {
            idx
        };
        NavView {
            filters: fs,
            selection: with_selected(v.selection, sec, idx2),
            actions: changed(v.actions),
            ..v
        }
    } else {
        v
    }
}

/// `d` without Ctrl or Shift: delete the connection or table, or remove the
/// filter condition.
pub open spec fn d_step(v: NavView, i: KeyInput, sec: SidebarSection, l: ListsView) -> NavView {
    if i.has(Key::D) && !i.modifiers.ctrl && !i.modifiers.shift {
        let idx = selected(v.selection, sec);
        match sec {
            SidebarSection::Connections => match item(l.connections, idx) {
                Some(n) => NavView {
                    actions: SidebarActionsView { delete: Some(n), ..v.actions },
                    ..v
                },
                None => v,
            },
            SidebarSection::Tables => match item(l.tables, idx) {
                Some(t) => NavView {
                    actions: SidebarActionsView { delete: Some("table:"@ + t), ..v.actions },
                    ..v
                },
                None => v,
            },
            SidebarSection::Filters => removed_at_cursor(v, sec),
            _ => v,
        }
    } else {
        v
    }
}

/// `x` in the filter part removes the condition too.
pub open spec fn x_step(v: NavView, i: KeyInput, sec: SidebarSection) -> NavView {
    if i.has(Key::X) && sec == SidebarSection::Filters {
        removed_at_cursor(v, sec)
    } else {
        v
    }
}

/// `e` without Ctrl: edit the connection under the cursor.
pub open spec fn edit_step(v: NavView, i: KeyInput, sec: SidebarSection, l: ListsView) -> NavView {
    if i.has(Key::E) && !i.modifiers.ctrl && sec == SidebarSection::Connections {
        match item(l.connections, selected(v.selection, sec)) {
            Some(n) => NavView {
                actions: SidebarActionsView { edit_connection: Some(n), ..v.actions },
                ..v
            },
            None => v,
        }
    } else {
        v
    }
}

/// `r` without Ctrl: rename the connection or table under the cursor.
pub open spec fn rename_step(v: NavView, i: KeyInput, sec: SidebarSection, l: ListsView) -> NavView {
    if i.has(Key::R) && !i.modifiers.ctrl {
        let idx = selected(v.selection, sec);
        let name = match sec {
            SidebarSection::Connections => item(l.connections, idx),
            SidebarSection::Tables => item(l.tables, idx),
            _ => None,
        };
        match name {
            Some(n) => NavView {
                actions: SidebarActionsView { rename_item: Some((sec, n)), ..v.actions },
                ..v
            },
            None => v,
        }
    } else {
        v
    }
}

/// `R`: reload the list.
pub open spec fn refresh_step(v: NavView, i: KeyInput) -> NavView {
    if i.has(Key::R) && i.modifiers.shift {
        NavView { actions: SidebarActionsView { refresh: true, ..v.actions }, ..v }
    } else {
        v
    }
}

/// The keys of the filter part, on the condition under the cursor: `a`/`o`
/// add one, `c` clears them, `w`/`b` move it to the next or previous
/// column, `n`/`N` to the next or previous operator, `t` switches AND/OR,
/// `i` edits the value, `s` (with no prefix typed) switches case
/// sensitivity where the operator honours it.
pub open spec fn filter_keys(v: NavView, i: KeyInput) -> NavView {
    let idx = selected(v.selection, SidebarSection::Filters);
    let on = idx < v.filters.len();
    let ctrl = i.modifiers.ctrl;
    let shift = i.modifiers.shift;
    let a0 = v.actions;
    let a1 = if i.has(Key::A) || i.has(Key::O) {
        SidebarActionsView { add_filter: true, ..a0 }
    } else {
        a0
    };
    let a2 = if i.has(Key::C) && !ctrl {
        SidebarActionsView { clear_filters: true, ..a1 }
    } else {
        a1
    };
    let a3 = if i.has(Key::W) && !ctrl && on {
        SidebarActionsView { cycle_filter_column: Some((idx, true)), ..a2 }
    } else {
        a2
    };
    let a4 = if i.has(Key::B) && !ctrl && on {
        SidebarActionsView { cycle_filter_column: Some((idx, false)), ..a3 }
    } else {
        a3
    };
    let fs0 = v.filters;
    let (fs1, a5) = if i.has(Key::N) && !ctrl && !shift && on {
        (fs0.update(idx as int, FilterView { operator: operator_after(fs0[idx as int].operator), ..fs0[idx as int] }), changed(a4))
    } else {
        (fs0, a4)
    };
    let (fs2, a6) = if i.has(Key::N) && shift && on {
        (fs1.update(idx as int, FilterView { operator: operator_before(fs1[idx as int].operator), ..fs1[idx as int] }), changed(a5))
    } else {
        (fs1, a5)
    };
    let a7 = if i.has(Key::T) && on {
        SidebarActionsView { toggle_filter_logic: Some(idx), ..a6 }
    } else {
        a6
    };
    let a8 = if i.has(Key::I) && on {
        SidebarActionsView { focus_filter_input: Some(idx), ..a7 }
    } else {
        a7
    };
    let (fs3, a9) = if i.has(Key::S) && v.command_buffer.len() == 0 && on && honours_case(
        fs2[idx as int].operator,
    ) {
        (fs2.update(idx as int, FilterView { case_sensitive: !fs2[idx as int].case_sensitive, ..fs2[idx as int] }), changed(a8))
    } else {
        (fs2, a8)
    };
    NavView { filters: fs3, actions: a9, ..v }
}

/// The acting keys, in the order they are read.
pub open spec fn item_keys(v: NavView, i: KeyInput, sec: SidebarSection, l: ListsView) -> NavView {
    let v3 = schema_step(v, i, sec, l);
    let v4 = enter_step(v3, i, sec, l);
    let v5 = d_step(v4, i, sec, l);
    let v6 = x_step(v5, i, sec);
    let v7 = edit_step(v6, i, sec, l);
    let v8 = rename_step(v7, i, sec, l);
    let v9 = refresh_step(v8, i);
    if sec == SidebarSection::Filters {
        filter_keys(v9, i)
    } else {
        v9
    }
}

/// One frame of the sidebar's keys in part `sec`, whose list has `count`
/// items: the move in the list, the move sideways, the acting keys, and
/// last the trigger panel's own index follows the trigger cursor.
pub open spec fn navigation_step(
    v: NavView,
    i: KeyInput,
    sec: SidebarSection,
    count: usize,
    l: ListsView,
) -> NavView {
    let v1 = list_step(v, list_navigation(i), sec, count, l);
    let v2 = horizontal_step(v1, horizontal_navigation(i), sec, l);
    let v10 = item_keys(v2, i, sec, l);
    if sec == SidebarSection::Triggers {
        NavView { trigger_selected_index: v10.selection.triggers, ..v10 }
    } else {
        v10
    }
}

// ---------------------------------------------------------------------------
// The handlers
// ---------------------------------------------------------------------------

/// The filter conditions by their models.
pub open spec fn filter_views(fs: Seq<ColumnFilter>) -> Seq<FilterView> {
    fs.map_values(|f: ColumnFilter| filter_view(f))
}

fn selected_index(s: &SidebarSelectionState, sec: SidebarSection) -> (r: usize)
    ensures
        r == selected(*s, sec),
{
    match sec {
        SidebarSection::Connections => s.connections,
        SidebarSection::Databases => s.databases,
        SidebarSection::Tables => s.tables,
        SidebarSection::Triggers => s.triggers,
        SidebarSection::Routines => s.routines,
        SidebarSection::Filters => s.filters,
    }
}

fn set_selected_index(s: &mut SidebarSelectionState, sec: SidebarSection, v: usize)
    ensures
        *final(s) == with_selected(*old(s), sec, v),
{
    match sec {
        SidebarSection::Connections => s.connections = v,
        SidebarSection::Databases => s.databases = v,
        SidebarSection::Tables => s.tables = v,
        SidebarSection::Triggers => s.triggers = v,
        SidebarSection::Routines => s.routines = v,
        SidebarSection::Filters => s.filters = v,
    }
}

fn toggle_enabled(filters: &mut Vec<ColumnFilter>, i: usize)
    requires
        i < old(filters)@.len(),
    ensures
        filter_views(final(filters)@) == toggled(filter_views(old(filters)@), i as int),
{
    let e = filters[i].enabled;
    filters[i].enabled = !e;
    proof {
        assert(filter_views(filters@) =~= toggled(filter_views(old(filters)@), i as int));
    }
}

fn remove_filter(filters: &mut Vec<ColumnFilter>, i: usize)
    requires
        i < old(filters)@.len(),
    ensures
        filter_views(final(filters)@) == filter_views(old(filters)@).remove(i as int),
{
    let _ = filters.remove(i);
    proof {
        assert(filter_views(filters@) =~= filter_views(old(filters)@).remove(i as int));
    }
}

impl Sidebar {
    /// The number of items of a part and its selected index.
    pub fn get_section_info(
        focused_section: SidebarSection,
        lists: &SidebarLists,
        selection: &SidebarSelectionState,
        filters: &[ColumnFilter],
    ) -> (r: (usize, usize))
        ensures
            r.0 == item_count(focused_section, lists@, filter_views(filters@)),
            r.1 == selected(*selection, focused_section),
    {
        let n = match focused_section {
            SidebarSection::Connections => lists.connections.len(),
            SidebarSection::Databases => lists.databases.len(),
            SidebarSection::Tables => lists.tables.len(),
            SidebarSection::Triggers => lists.triggers.len(),
            SidebarSection::Routines => lists.routines.len(),
            SidebarSection::Filters => filters.len(),
        };
        (n, selected_index(selection, focused_section))
    }

    /// Deletes the item at `selected_index` of a part (see `delete_effect`).
    pub fn handle_delete_action(
        focused_section: SidebarSection,
        selected_index: usize,
        lists: &SidebarLists,
        filters: &mut Vec<ColumnFilter>,
        actions: &mut SidebarActions,
    )
        ensures
            (filter_views(final(filters)@), final(actions)@) == delete_effect(
                filter_views(old(filters)@),
                old(actions)@,
                focused_section,
                selected_index,
                lists@,
            ),
    {
        match focused_section {
            SidebarSection::Connections => {
                if selected_index < lists.connections.len() {
                    actions.delete = Some(lists.connections[selected_index].clone());
                }
            },
            SidebarSection::Tables => {
                if selected_index < lists.tables.len() {
                    actions.delete = Some(concat2("table:", lists.tables[selected_index].as_str()));
                }
            },
            SidebarSection::Filters => {
                if selected_index < filters.len() {
                    remove_filter(filters, selected_index);
                    actions.filter_changed = true;
                }
            },
            _ => {},
        }
    }
}

/// The move in the list.
fn list_phase(
    nav: ListNavigation,
    sec: SidebarSection,
    count: usize,
    lists: &SidebarLists,
    tsi: usize,
    selection: &mut SidebarSelectionState,
    command_buffer: &mut String,
    selected_table: &mut Option<String>,
    filters: &mut Vec<ColumnFilter>,
    actions: &mut SidebarActions,
)
    requires
        selected(*old(selection), sec) < usize::MAX,
    ensures
        nav_view(*final(selection), *final(command_buffer), tsi, *final(selected_table), *final(filters), *final(actions))
            == list_step(
            nav_view(*old(selection), *old(command_buffer), tsi, *old(selected_table), *old(filters), *old(actions)),
            nav,
            sec,
            count,
            lists@,
        ),
{
    let idx = selected_index(selection, sec);
    let last = if count >= 1 { count - 1 } else { 0 };
    match nav {
        ListNavigation::Down => {
            let n = if idx + 1 <= last { idx + 1 } else { last };
            set_selected_index(selection, sec, n);
            *command_buffer = String::new();
        },
        ListNavigation::Up => {
            let n = if idx >= 1 { idx - 1 } else { 0 };
            set_selected_index(selection, sec, n);
            *command_buffer = String::new();
        },
        ListNavigation::Start => {
            set_selected_index(selection, sec, 0);
            *command_buffer = String::new();
        },
        ListNavigation::End => {
            set_selected_index(selection, sec, last);
            *command_buffer = String::new();
        },
        ListNavigation::Toggle => {
            if sec == SidebarSection::Filters && idx < filters.len() {
                toggle_enabled(filters, idx);
                actions.filter_changed = true;
            }
        },
        ListNavigation::Delete => {
            Sidebar::handle_delete_action(sec, idx, lists, filters, actions);
        },
        _ => {},
    }
}

/// The move sideways.
fn horizontal_phase(
    h: HorizontalNavigation,
    sec: SidebarSection,
    lists: &SidebarLists,
    tsi: usize,
    selection: &mut SidebarSelectionState,
    command_buffer: &mut String,
    selected_table: &mut Option<String>,
    filters: &mut Vec<ColumnFilter>,
    actions: &mut SidebarActions,
)
    ensures
        nav_view(*final(selection), *final(command_buffer), tsi, *final(selected_table), *final(filters), *final(actions))
            == horizontal_step(
            nav_view(*old(selection), *old(command_buffer), tsi, *old(selected_table), *old(filters), *old(actions)),
            h,
            sec,
            lists@,
        ),
{
    match h {
        HorizontalNavigation::Left => {
            let new_section = match sec {
                SidebarSection::Routines => Some(SidebarSection::Triggers),
                SidebarSection::Triggers => Some(SidebarSection::Filters),
                SidebarSection::Filters => Some(SidebarSection::Tables),
                SidebarSection::Tables => {
                    if lists.databases.len() > 0 {
                        Some(SidebarSection::Databases)
                    } else {
                        Some(SidebarSection::Connections)
                    }
                },
                SidebarSection::Databases => Some(SidebarSection::Connections),
                SidebarSection::Connections => None,
            };
            if let Some(s) = new_section {
                actions.section_change = Some(s);
            }
        },
        HorizontalNavigation::Right => {
            let has_databases = lists.databases.len() > 0;
            let has_tables = lists.tables.len() > 0;
            let has_filters = filters.len() > 0;
            let has_triggers = lists.triggers.len() > 0;
            let has_routines = lists.routines.len() > 0;
            let new_section = match sec {
                SidebarSection::Connections => {
                    if has_databases {
                        Some(SidebarSection::Databases)
                    } else if has_tables {
                        Some(SidebarSection::Tables)
                    } else {
                        None
                    }
                },
                SidebarSection::Databases => {
                    if has_tables {
                        Some(SidebarSection::Tables)
                    } else {
                        None
                    }
                },
                SidebarSection::Tables => {
                    if has_filters {
                        Some(SidebarSection::Filters)
                    } else if has_triggers {
                        Some(SidebarSection::Triggers)
                    } else if has_routines {
                        Some(SidebarSection::Routines)
                    } else {
                        None
                    }
                },
                SidebarSection::Filters => {
                    if has_triggers {
                        Some(SidebarSection::Triggers)
                    } else if has_routines {
                        Some(SidebarSection::Routines)
                    } else {
                        None
                    }
                },
                SidebarSection::Triggers => {
                    if has_routines {
                        Some(SidebarSection::Routines)
                    } else {
                        None
                    }
                },
                SidebarSection::Routines => None,
            };
            match new_section {
                Some(s) => actions.section_change = Some(s),
                None => actions.focus_transfer = Some(SidebarFocusTransfer::ToDataGrid),
            }
        },
        HorizontalNavigation::Idle => {},
    }
}

/// `gs` and Enter.
fn schema_enter_phase(
    input: &KeyInput,
    sec: SidebarSection,
    lists: &SidebarLists,
    tsi: usize,
    selection: &mut SidebarSelectionState,
    command_buffer: &mut String,
    selected_table: &mut Option<String>,
    filters: &mut Vec<ColumnFilter>,
    actions: &mut SidebarActions,
)
    ensures
        nav_view(*final(selection), *final(command_buffer), tsi, *final(selected_table), *final(filters), *final(actions))
            == enter_step(
            schema_step(
                nav_view(*old(selection), *old(command_buffer), tsi, *old(selected_table), *old(filters), *old(actions)),
                *input,
                sec,
                lists@,
            ),
            *input,
            sec,
            lists@,
        ),
{
    let idx = selected_index(selection, sec);
    if input.key_pressed(Key::S) && str_eq(command_buffer.as_str(), "g") {
        if sec == SidebarSection::Tables && idx < lists.tables.len() {
            actions.show_table_schema = Some(lists.tables[idx].clone());
        }
        *command_buffer = String::new();
    }
    if input.key_pressed(Key::Enter) {
        match sec {
            SidebarSection::Connections => {
                if idx < lists.connections.len() {
                    actions.connect = Some(lists.connections[idx].clone());
                }
            },
            SidebarSection::Databases => {
                if idx < lists.databases.len() {
                    actions.select_database = Some(lists.databases[idx].clone());
                }
            },
            SidebarSection::Tables => {
                if idx < lists.tables.len() {
                    actions.query_table = Some(lists.tables[idx].clone());
                    *selected_table = Some(lists.tables[idx].clone());
                }
            },
            SidebarSection::Triggers => {
                if idx < lists.triggers.len() {
                    actions.show_trigger_definition = Some(lists.triggers[idx].clone());
                }
            },
            SidebarSection::Routines => {
                if idx < lists.routines.len() {
                    actions.show_routine_definition = Some(lists.routines[idx].clone());
                }
            },
            SidebarSection::Filters => {
                if idx < filters.len() {
                    toggle_enabled(filters, idx);
                    actions.filter_changed = true;
                }
            },
        }
    }
}

/// Removes the filter condition under the cursor (see `removed_at_cursor`).
fn remove_at_cursor(
    sec: SidebarSection,
    tsi: usize,
    selection: &mut SidebarSelectionState,
    command_buffer: &mut String,
    selected_table: &mut Option<String>,
    filters: &mut Vec<ColumnFilter>,
    actions: &mut SidebarActions,
)
    ensures
        nav_view(*final(selection), *final(command_buffer), tsi, *final(selected_table), *final(filters), *final(actions))
            == removed_at_cursor(
            nav_view(*old(selection), *old(command_buffer), tsi, *old(selected_table), *old(filters), *old(actions)),
            sec,
        ),
{
    let idx = selected_index(selection, sec);
    if idx < filters.len() {
        remove_filter(filters, idx);
        if idx >= filters.len() && filters.len() > 0 {
            set_selected_index(selection, sec, filters.len() - 1);
        }
        actions.filter_changed = true;
    }
}

/// `d`, `x`, `e`, `r` and `R`.
fn item_phase(
    input: &KeyInput,
    sec: SidebarSection,
    lists: &SidebarLists,
    tsi: usize,
    selection: &mut SidebarSelectionState,
    command_buffer: &mut String,
    selected_table: &mut Option<String>,
    filters: &mut Vec<ColumnFilter>,
    actions: &mut SidebarActions,
)
    ensures
        nav_view(*final(selection), *final(command_buffer), tsi, *final(selected_table), *final(filters), *final(actions))
            == refresh_step(
            rename_step(
                edit_step(
                    x_step(
                        d_step(
                            nav_view(*old(selection), *old(command_buffer), tsi, *old(selected_table), *old(filters), *old(actions)),
                            *input,
                            sec,
                            lists@,
                        ),
                        *input,
                        sec,
                    ),
                    *input,
                    sec,
                    lists@,
                ),
                *input,
                sec,
                lists@,
            ),
            *input,
        ),
{
    let m = input.modifiers;
    if input.key_pressed(Key::D) && !m.ctrl && !m.shift {
        let idx = selected_index(selection, sec);
        match sec {
            SidebarSection::Connections => {
                if idx < lists.connections.len() {
                    actions.delete = Some(lists.connections[idx].clone());
                }
            },
            SidebarSection::Tables => {
                if idx < lists.tables.len() {
                    actions.delete = Some(concat2("table:", lists.tables[idx].as_str()));
                }
            },
            SidebarSection::Filters => {
                remove_at_cursor(sec, tsi, selection, command_buffer, selected_table, filters, actions);
            },
            _ => {},
        }
    }
    if input.key_pressed(Key::X) && sec == SidebarSection::Filters {
        remove_at_cursor(sec, tsi, selection, command_buffer, selected_table, filters, actions);
    }
    let idx = selected_index(selection, sec);
    if input.key_pressed(Key::E) && !m.ctrl && sec == SidebarSection::Connections {
        if idx < lists.connections.len() {
            actions.edit_connection = Some(lists.connections[idx].clone());
        }
    }
    if input.key_pressed(Key::R) && !m.ctrl {
        let name = match sec {
            SidebarSection::Connections => {
                if idx < lists.connections.len() {
                    Some(lists.connections[idx].clone())
                } else {
                    None
                }
            },
            SidebarSection::Tables => {
                if idx < lists.tables.len() {
                    Some(lists.tables[idx].clone())
                } else {
                    None
                }
            },
            _ => None,
        };
        if let Some(n) = name {
            actions.rename_item = Some((sec, n));
        }
    }
    if input.key_pressed(Key::R) && m.shift {
        actions.refresh = true;
    }
}

/// The keys of the filter part (see `filter_keys`).
fn filter_phase(
    input: &KeyInput,
    tsi: usize,
    selection: &mut SidebarSelectionState,
    command_buffer: &mut String,
    selected_table: &mut Option<String>,
    filters: &mut Vec<ColumnFilter>,
    actions: &mut SidebarActions,
)
    ensures
        nav_view(*final(selection), *final(command_buffer), tsi, *final(selected_table), *final(filters), *final(actions))
            == filter_keys(
            nav_view(*old(selection), *old(command_buffer), tsi, *old(selected_table), *old(filters), *old(actions)),
            *input,
        ),
{
    let ghost fv0 = filter_views(filters@);
    let m = input.modifiers;
    let idx = selection.filters;
    let on = idx < filters.len();
    if input.key_pressed(Key::A) || input.key_pressed(Key::O) {
        actions.add_filter = true;
    }
    if input.key_pressed(Key::C) && !m.ctrl {
        actions.clear_filters = true;
    }
    if input.key_pressed(Key::W) && !m.ctrl && on {
        actions.cycle_filter_column = Some((idx, true));
    }
    if input.key_pressed(Key::B) && !m.ctrl && on {
        actions.cycle_filter_column = Some((idx, false));
    }
    if input.key_pressed(Key::N) && !m.ctrl && !m.shift && on {
        let op = next_operator(&filters[idx].operator);
        filters[idx].operator = op;
        actions.filter_changed = true;
    }
    let ghost fv1 = filter_views(filters@);
    if input.key_pressed(Key::N) && m.shift && on {
        let op = prev_operator(&filters[idx].operator);
        filters[idx].operator = op;
        actions.filter_changed = true;
    }
    let ghost fv2 = filter_views(filters@);
    if input.key_pressed(Key::T) && on {
        actions.toggle_filter_logic = Some(idx);
    }
    if input.key_pressed(Key::I) && on {
        actions.focus_filter_input = Some(idx);
    }
    if input.key_pressed(Key::S) && command_buffer.as_str().is_empty() && on {
        if filters[idx].operator.supports_case_sensitivity() {
            let c = filters[idx].case_sensitive;
            filters[idx].case_sensitive = !c;
            actions.filter_changed = true;
        }
    }
    proof {
        let v = nav_view(*old(selection), *old(command_buffer), tsi, *old(selected_table), *old(filters), *old(actions));
        let r = filter_keys(v, *input);
        assert(filter_views(filters@) =~= r.filters);
    }
}

impl Sidebar {
    /// One frame of the sidebar's keys in part `focused_section`, whose list
    /// has `item_count` items (see `navigation_step`). The lists are read;
    /// the selection, the typed prefix, the trigger panel's index, the table
    /// picked, the filter conditions and the requests are updated.
    pub fn handle_keyboard_navigation(
        input: &KeyInput,
        focused_section: SidebarSection,
        selection: &mut SidebarSelectionState,
        command_buffer: &mut String,
        trigger_selected_index: &mut usize,
        item_count: usize,
        lists: &SidebarLists,
        selected_table: &mut Option<String>,
        filters: &mut Vec<ColumnFilter>,
        actions: &mut SidebarActions,
    )
        requires
            selected(*old(selection), focused_section) < usize::MAX,
        ensures
            nav_view(
                *final(selection),
                *final(command_buffer),
                *final(trigger_selected_index),
                *final(selected_table),
                *final(filters),
                *final(actions),
            ) == navigation_step(
                nav_view(
                    *old(selection),
                    *old(command_buffer),
                    *old(trigger_selected_index),
                    *old(selected_table),
                    *old(filters),
                    *old(actions),
                ),
                *input,
                focused_section,
                item_count,
                lists@,
            ),
    {
        let sec = focused_section;
        let tsi = *trigger_selected_index;
        let nav = handle_list_navigation(input);
        list_phase(nav, sec, item_count, lists, tsi, selection, command_buffer, selected_table, filters, actions);
        let h = handle_horizontal_navigation(input);
        horizontal_phase(h, sec, lists, tsi, selection, command_buffer, selected_table, filters, actions);
        schema_enter_phase(input, sec, lists, tsi, selection, command_buffer, selected_table, filters, actions);
        item_phase(input, sec, lists, tsi, selection, command_buffer, selected_table, filters, actions);
        if sec == SidebarSection::Filters {
            filter_phase(input, tsi, selection, command_buffer, selected_table, filters, actions);
        }
        if sec == SidebarSection::Triggers {
            *trigger_selected_index = selection.triggers;
        }
    }

    /// The keyboard part of drawing the sidebar: the cursor of the focused
    /// part is brought back onto its list's last item when it is past the
    /// end; then, when the sidebar has the keyboard and the part has items,
    /// the frame's keys are handled.
    pub fn keyboard_frame(
        input: &KeyInput,
        is_focused: bool,
        focused_section: SidebarSection,
        selection: &mut SidebarSelectionState,
        command_buffer: &mut String,
        trigger_selected_index: &mut usize,
        lists: &SidebarLists,
        selected_table: &mut Option<String>,
        filters: &mut Vec<ColumnFilter>,
        actions: &mut SidebarActions,
    )
        ensures
            ({
                let count = item_count(focused_section, lists@, filter_views(old(filters)@));
                let idx = selected(*old(selection), focused_section);
                let sel = if count > 0 && idx >= count {
                    with_selected(*old(selection), focused_section, (count - 1) as usize)
                } else {
                    *old(selection)
                };
                let v = nav_view(
                    sel,
                    *old(command_buffer),
                    *old(trigger_selected_index),
                    *old(selected_table),
                    *old(filters),
                    *old(actions),
                );
                nav_view(
                    *final(selection),
                    *final(command_buffer),
                    *final(trigger_selected_index),
                    *final(selected_table),
                    *final(filters),
                    *final(actions),
                ) == if is_focused && count > 0 {
                    navigation_step(v, *input, focused_section, count as usize, lists@)
                } else {
                    v
                }
            }),
    {
        let (count, idx) = Sidebar::get_section_info(focused_section, lists, selection, filters.as_slice());
        if count > 0 && idx >= count {
            set_selected_index(selection, focused_section, count - 1);
        }
        if is_focused && count > 0 {
            Sidebar::handle_keyboard_navigation(
                input,
                focused_section,
                selection,
                command_buffer,
                trigger_selected_index,
                count,
                lists,
                selected_table,
                filters,
                actions,
            );
        }
    }
}

// ---------------------------------------------------------------------------
// Laws of the keys
// ---------------------------------------------------------------------------

/// A frame of keys moves only the cursor of the part that has the keyboard:
/// the selected index of every other part stays as it was.
pub proof fn lemma_keys_move_only_focused_cursor(
    v: NavView,
    i: KeyInput,
    sec: SidebarSection,
    count: usize,
    l: ListsView,
    other: SidebarSection,
)
    requires
        other != sec,
    ensures
        selected(navigation_step(v, i, sec, count, l).selection, other) == selected(
            v.selection,
            other,
        ),
{
    let v1 = list_step(v, list_navigation(i), sec, count, l);
    lemma_list_keeps_other(v, list_navigation(i), sec, count, l, other);
    let v2 = horizontal_step(v1, horizontal_navigation(i), sec, l);
    lemma_item_keys_keep_other(v2, i, sec, l, other);
}

proof fn lemma_selected_other(s: SidebarSelectionState, sec: SidebarSection, n: usize, other: SidebarSection)
    requires
        other != sec,
    ensures
        selected(with_selected(s, sec, n), other) == selected(s, other),
{
}

proof fn lemma_list_keeps_other(
    v: NavView,
    nav: ListNavigation,
    sec: SidebarSection,
    count: usize,
    l: ListsView,
    other: SidebarSection,
)
    requires
        other != sec,
    ensures
        selected(list_step(v, nav, sec, count, l).selection, other) == selected(v.selection, other),
{
    let idx = selected(v.selection, sec);
    lemma_selected_other(v.selection, sec, 0, other);
    lemma_selected_other(v.selection, sec, last_index(count), other);
    lemma_selected_other(v.selection, sec, (idx + 1) as usize, other);
    lemma_selected_other(v.selection, sec, (idx - 1) as usize, other);
}

proof fn lemma_removal_keeps_other(v: NavView, sec: SidebarSection, other: SidebarSection)
    requires
        other != sec,
    ensures
        selected(removed_at_cursor(v, sec).selection, other) == selected(v.selection, other),
{
    let fs = v.filters.remove(selected(v.selection, sec) as int);
    lemma_selected_other(v.selection, sec, (fs.len() - 1) as usize, other);
}

proof fn lemma_item_keys_keep_other(v: NavView, i: KeyInput, sec: SidebarSection, l: ListsView, other: SidebarSection)
    requires
        other != sec,
    ensures
        selected(item_keys(v, i, sec, l).selection, other) == selected(v.selection, other),
        selected(
            (if sec == SidebarSection::Triggers {
                NavView { trigger_selected_index: item_keys(v, i, sec, l).selection.triggers, ..item_keys(v, i, sec, l) }
            } else {
                item_keys(v, i, sec, l)
            }).selection,
            other,
        ) == selected(v.selection, other),
{
    let v3 = schema_step(v, i, sec, l);
    let v4 = enter_step(v3, i, sec, l);
    let v5 = d_step(v4, i, sec, l);
    lemma_removal_keeps_other(v4, sec, other);
    let v6 = x_step(v5, i, sec);
    lemma_removal_keeps_other(v5, sec, other);
}

/// Outside the filter part, where the frame leaves the lists as they are, a
/// cursor on an item is still on an item after the frame.
pub proof fn lemma_cursor_stays_on_list(v: NavView, i: KeyInput, sec: SidebarSection, l: ListsView)
    requires
        sec != SidebarSection::Filters,
        item_count(sec, l, v.filters) <= usize::MAX,
        selected(v.selection, sec) < item_count(sec, l, v.filters),
    ensures
        selected(
            navigation_step(v, i, sec, item_count(sec, l, v.filters) as usize, l).selection,
            sec,
        ) < item_count(sec, l, v.filters),
{
}

} // verus!
