//! The query-history panel's state.
use vstd::prelude::*;
use crate::text::views;
use crate::ui::dialogs::keyboard::{closes, handle_close_keys};
use crate::ui::input::{Key, KeyInput};

verus! {

/// Which history entry the keyboard is on.
pub struct HistoryPanelState {
    pub selected_index: usize,
}

impl Default for HistoryPanelState {
    fn default() -> (r: Self)
        ensures
            r.selected_index == 0,
    {
        HistoryPanelState { selected_index: 0 }
    }
}

/// The query-history panel widget.
pub struct HistoryPanel;

/// The model of the panel between frames.
pub struct HistoryView {
    pub show: bool,
    pub selected_index: usize,
    pub clear_history: bool,
    pub selected_sql: Option<Seq<char>>,
}

/// Where the selection moves in a list of `len > 0` entries: `j`/↓ and
/// `k`/↑ by one, `g` and `G` to the ends, Ctrl+U and Ctrl+D by ten, in that
/// order, never past the ends.
pub open spec fn history_index_step(i: KeyInput, sel: int, len: nat) -> int {
    let last = len - 1;
    let s1 = if i.has(Key::J) || i.has(Key::ArrowDown) {
        if sel + 1 <= last { sel + 1 } else { last }
    } else {
        sel
    };
    let s2 = if i.has(Key::K) || i.has(Key::ArrowUp) {
        if s1 >= 1 { s1 - 1 } else { 0 }
    } else {
        s1
    };
    let s3 = if i.has(Key::G) && !i.modifiers.shift { 0 } else { s2 };
    let s4 = if i.has(Key::G) && i.modifiers.shift { last } else { s3 };
    let s5 = if i.modifiers.ctrl && i.has(Key::U) {
        if s4 >= 10 { s4 - 10 } else { 0 }
    } else {
        s4
    };
    if i.modifiers.ctrl && i.has(Key::D) {
        if s5 + 10 <= last { s5 + 10 } else { last }
    } else {
        s5
    }
}

/// One frame of the history panel's keys (when no text field has the
/// keyboard): Escape or `q` closes; Ctrl+Delete asks to clear the history;
/// with entries the selection moves (see `history_index_step`), and Enter or
/// `l` picks the selected entry and closes.
pub open spec fn history_step(h: HistoryView, i: KeyInput, items: Seq<Seq<char>>) -> HistoryView {
    let len = items.len();
    if closes(i) {
        HistoryView { show: false, ..h }
    } else {
        let h1 = if i.modifiers.ctrl && i.has(Key::Delete) {
            HistoryView { clear_history: true, ..h }
        } else {
            h
        };
        if len > 0 {
            let s6 = history_index_step(i, h1.selected_index as int, len);
            let h2 = HistoryView { selected_index: s6 as usize, ..h1 };
            if (i.has(Key::Enter) || i.has(Key::L)) && s6 < len {
                HistoryView { selected_sql: Some(items[s6]), show: false, ..h2 }
            } else {
                h2
            }
        } else {
            h1
        }
    }
}

/// The selection never leaves the list: from an entry of a non-empty list
/// the keys always land on an entry; and Enter or `l` (unless the panel is
/// being closed) picks the entry the selection lands on and closes the panel.
pub proof fn lemma_history_selection_stays(h: HistoryView, i: KeyInput, items: Seq<Seq<char>>)
    requires
        (h.selected_index as int) < items.len(),
        items.len() <= usize::MAX,
    ensures
        0 <= history_index_step(i, h.selected_index as int, items.len()) < items.len(),
        !closes(i) && (i.has(Key::Enter) || i.has(Key::L)) ==> {
            &&& history_step(h, i, items).selected_sql == Some(items[history_step(h, i, items).selected_index as int])
            &&& !history_step(h, i, items).show
        },
        (history_step(h, i, items).selected_index as int) < items.len(),
{
}

/// `min(sel + d, last)` without overflow.
fn step_down(sel: usize, d: usize, last: usize) -> (r: usize)
    ensures
        r == (if sel + d <= last { sel + d } else { last as int }),
{
    if sel <= last && last - sel >= d {
        sel + d
    } else {
        last
    }
}

/// Where the selection moves (see `history_index_step`).
fn history_index_exec(i: &KeyInput, sel: usize, len: usize) -> (r: usize)
    requires
        len > 0,
    ensures
        r == history_index_step(*i, sel as int, len as nat),
{
    let last = len - 1;
    let m = i.modifiers;
    let mut s = sel;
    if i.key_pressed(Key::J) || i.key_pressed(Key::ArrowDown) {
        s = step_down(s, 1, last);
    }
    if i.key_pressed(Key::K) || i.key_pressed(Key::ArrowUp) {
        s = if s >= 1 { s - 1 } else { 0 };
    }
    if i.key_pressed(Key::G) && !m.shift {
        s = 0;
    }
    if i.key_pressed(Key::G) && m.shift {
        s = last;
    }
    if m.ctrl && i.key_pressed(Key::U) {
        s = if s >= 10 { s - 10 } else { 0 };
    }
    if m.ctrl && i.key_pressed(Key::D) {
        s = step_down(s, 10, last);
    }
    s
}

impl HistoryPanel {
    /// One frame of the panel's keys (see `history_step`); `history` holds the
    /// SQL of the entries, in the order shown. Call it when no text field
    /// has the keyboard.
    pub fn handle_keys(
        input: &KeyInput,
        show: &mut bool,
        history: &[String],
        selected_sql: &mut Option<String>,
        clear_history: &mut bool,
        state: &mut HistoryPanelState,
    )
        requires
            old(state).selected_index <= usize::MAX - 10,
        ensures
            (HistoryView {
                show: *final(show),
                selected_index: final(state).selected_index,
                clear_history: *final(clear_history),
                selected_sql: match *final(selected_sql) {
                    Some(s) => Some(s@),
                    None => None,
                },
            }) == history_step(
                HistoryView {
                    show: *old(show),
                    selected_index: old(state).selected_index,
                    clear_history: *old(clear_history),
                    selected_sql: match *old(selected_sql) {
                        Some(s) => Some(s@),
                        None => None,
                    },
                },
                *input,
                views(history@),
            ),
    {
        if handle_close_keys(input) {
            *show = false;
            return ;
        }
        let m = input.modifiers;
        if m.ctrl && input.key_pressed(Key::Delete) {
            *clear_history = true;
        }
        let len = history.len();
        if len > 0 {
            state.selected_index = history_index_exec(input, state.selected_index, len);
            if input.key_pressed(Key::Enter) || input.key_pressed(Key::L) {
                if state.selected_index < len {
                    *selected_sql = Some(history[state.selected_index].clone());
                    *show = false;
                    return ;
                }
            }
        }
    }
}

} // verus!
