//! The sidebar: connections, databases, tables and triggers, and the keys
//! that move in and between them.
use vstd::prelude::*;
use crate::text::{bytes_prefix, chars_of, cut_with_ellipsis, is_char_boundary, lemma_prefix_count_fits, utf8_len};
use crate::ui::components::grid::filter::operators::operator_order;
use crate::ui::components::FilterOperator;
use crate::ui::components::grid::mode::{color_from_rgb, rgb};
use crate::text::concat3;

pub mod actions;
pub mod state;
pub mod navigation;

pub use actions::{SidebarActions, SidebarFocusTransfer};
pub use state::SidebarSelectionState;

verus! {

/// The sidebar widget.
pub struct Sidebar;

/// The connection list widget.
pub struct ConnectionList;

/// The database list widget.
pub struct DatabaseList;

/// The mark before a connection's name: `>` under the keyboard cursor, `*`
/// for the active connection, `+` for another open one, `-` for one that is
/// closed.
pub open spec fn connection_mark(is_active: bool, is_connected: bool, is_nav_selected: bool) -> Seq<
    char,
> {
    if is_nav_selected {
        ">"@
    } else if is_active && is_connected {
        "*"@
    } else if is_connected {
        "+"@
    } else {
        "-"@
    }
}

/// The colour of that mark and name: light blue, green, pale green or grey.
pub open spec fn connection_color(is_active: bool, is_connected: bool, is_nav_selected: bool) -> egui::Color32 {
    if is_nav_selected {
        color_from_rgb(100, 180, 255)
    } else if is_active && is_connected {
        color_from_rgb(82, 196, 106)
    } else if is_connected {
        color_from_rgb(100, 180, 100)
    } else {
        color_from_rgb(140, 140, 150)
    }
}

impl ConnectionList {
    /// The header of a connection in the list: its mark, a space and its
    /// name, and the colour to draw them in (drawn bold).
    pub fn connection_header_text(
        name: &str,
        is_active: bool,
        is_connected: bool,
        is_nav_selected: bool,
    ) -> (r: (String, egui::Color32))
        ensures
            r.0@ == connection_mark(is_active, is_connected, is_nav_selected) + " "@ + name@,
            r.1 == connection_color(is_active, is_connected, is_nav_selected),
    {
        let (mark, color) = if is_nav_selected {
            (">", rgb(100, 180, 255))
        } else if is_active && is_connected {
            ("*", rgb(82, 196, 106))
        } else if is_connected {
            ("+", rgb(100, 180, 100))
        } else {
            ("-", rgb(140, 140, 150))
        };
        (concat3(mark, " ", name), color)
    }
}

/// The operator after `op` in the cycle that `n` walks through the filter
/// panel (the order of `FilterOperator::all`, back to the start after REGEX).
pub open spec fn operator_after(op: FilterOperator) -> FilterOperator {
    match op {
        FilterOperator::Contains => FilterOperator::NotContains,
        FilterOperator::NotContains => FilterOperator::Equals,
        FilterOperator::Equals => FilterOperator::NotEquals,
        FilterOperator::NotEquals => FilterOperator::StartsWith,
        FilterOperator::StartsWith => FilterOperator::EndsWith,
        FilterOperator::EndsWith => FilterOperator::GreaterThan,
        FilterOperator::GreaterThan => FilterOperator::GreaterOrEqual,
        FilterOperator::GreaterOrEqual => FilterOperator::LessThan,
        FilterOperator::LessThan => FilterOperator::LessOrEqual,
        FilterOperator::LessOrEqual => FilterOperator::Between,
        FilterOperator::Between => FilterOperator::NotBetween,
        FilterOperator::NotBetween => FilterOperator::In,
        FilterOperator::In => FilterOperator::NotIn,
        FilterOperator::NotIn => FilterOperator::IsNull,
        FilterOperator::IsNull => FilterOperator::IsNotNull,
        FilterOperator::IsNotNull => FilterOperator::IsEmpty,
        FilterOperator::IsEmpty => FilterOperator::IsNotEmpty,
        FilterOperator::IsNotEmpty => FilterOperator::Regex,
        FilterOperator::Regex => FilterOperator::Contains,
    }
}

/// The operator before `op` in the same cycle.
pub open spec fn operator_before(op: FilterOperator) -> FilterOperator {
    match op {
        FilterOperator::Contains => FilterOperator::Regex,
        FilterOperator::NotContains => FilterOperator::Contains,
        FilterOperator::Equals => FilterOperator::NotContains,
        FilterOperator::NotEquals => FilterOperator::Equals,
        FilterOperator::StartsWith => FilterOperator::NotEquals,
        FilterOperator::EndsWith => FilterOperator::StartsWith,
        FilterOperator::GreaterThan => FilterOperator::EndsWith,
        FilterOperator::GreaterOrEqual => FilterOperator::GreaterThan,
        FilterOperator::LessThan => FilterOperator::GreaterOrEqual,
        FilterOperator::LessOrEqual => FilterOperator::LessThan,
        FilterOperator::Between => FilterOperator::LessOrEqual,
        FilterOperator::NotBetween => FilterOperator::Between,
        FilterOperator::In => FilterOperator::NotBetween,
        FilterOperator::NotIn => FilterOperator::In,
        FilterOperator::IsNull => FilterOperator::NotIn,
        FilterOperator::IsNotNull => FilterOperator::IsNull,
        FilterOperator::IsEmpty => FilterOperator::IsNotNull,
        FilterOperator::IsNotEmpty => FilterOperator::IsEmpty,
        FilterOperator::Regex => FilterOperator::IsNotEmpty,
    }
}

/// The next filter operator (`n` in the filter panel).
pub fn next_operator(current: &FilterOperator) -> (r: FilterOperator)
    ensures
        r == operator_after(*current),
{
    match current {
        FilterOperator::Contains => FilterOperator::NotContains,
        FilterOperator::NotContains => FilterOperator::Equals,
        FilterOperator::Equals => FilterOperator::NotEquals,
        FilterOperator::NotEquals => FilterOperator::StartsWith,
        FilterOperator::StartsWith => FilterOperator::EndsWith,
        FilterOperator::EndsWith => FilterOperator::GreaterThan,
        FilterOperator::GreaterThan => FilterOperator::GreaterOrEqual,
        FilterOperator::GreaterOrEqual => FilterOperator::LessThan,
        FilterOperator::LessThan => FilterOperator::LessOrEqual,
        FilterOperator::LessOrEqual => FilterOperator::Between,
        FilterOperator::Between => FilterOperator::NotBetween,
        FilterOperator::NotBetween => FilterOperator::In,
        FilterOperator::In => FilterOperator::NotIn,
        FilterOperator::NotIn => FilterOperator::IsNull,
        FilterOperator::IsNull => FilterOperator::IsNotNull,
        FilterOperator::IsNotNull => FilterOperator::IsEmpty,
        FilterOperator::IsEmpty => FilterOperator::IsNotEmpty,
        FilterOperator::IsNotEmpty => FilterOperator::Regex,
        FilterOperator::Regex => FilterOperator::Contains,
    }
}

/// The previous filter operator (`N` in the filter panel).
pub fn prev_operator(current: &FilterOperator) -> (r: FilterOperator)
    ensures
        r == operator_before(*current),
{
    match current {
        FilterOperator::Contains => FilterOperator::Regex,
        FilterOperator::NotContains => FilterOperator::Contains,
        FilterOperator::Equals => FilterOperator::NotContains,
        FilterOperator::NotEquals => FilterOperator::Equals,
        FilterOperator::StartsWith => FilterOperator::NotEquals,
        FilterOperator::EndsWith => FilterOperator::StartsWith,
        FilterOperator::GreaterThan => FilterOperator::EndsWith,
        FilterOperator::GreaterOrEqual => FilterOperator::GreaterThan,
        FilterOperator::LessThan => FilterOperator::GreaterOrEqual,
        FilterOperator::LessOrEqual => FilterOperator::LessThan,
        FilterOperator::Between => FilterOperator::LessOrEqual,
        FilterOperator::NotBetween => FilterOperator::Between,
        FilterOperator::In => FilterOperator::NotBetween,
        FilterOperator::NotIn => FilterOperator::In,
        FilterOperator::IsNull => FilterOperator::NotIn,
        FilterOperator::IsNotNull => FilterOperator::IsNull,
        FilterOperator::IsEmpty => FilterOperator::IsNotNull,
        FilterOperator::IsNotEmpty => FilterOperator::IsEmpty,
        FilterOperator::Regex => FilterOperator::IsNotEmpty,
    }
}

/// `n` and `N` undo each other, and both walk the operators in the order of
/// `FilterOperator::all`, wrapping around.
pub proof fn lemma_operator_cycle(op: FilterOperator)
    ensures
        operator_before(operator_after(op)) == op,
        operator_after(operator_before(op)) == op,
        forall|k: int|
            0 <= k < 19 ==> #[trigger] operator_after(operator_order()[k]) == operator_order()[(k + 1)
                % 19],
        forall|k: int|
            0 <= k < 19 ==> #[trigger] operator_before(operator_order()[k]) == operator_order()[(k
                + 18) % 19],
{
}

/// An error message cut for the sidebar: over 50 bytes, its first 47 bytes
/// and `...`.
pub open spec fn truncated_error(s: Seq<char>) -> Seq<char> {
    if utf8_len(s) > 50 {
        bytes_prefix(s, 47) + "..."@
    } else {
        s
    }
}

/// A cut message never takes more than 50 bytes, and a message of at most
/// 50 bytes is kept whole.
pub proof fn lemma_truncated_error_fits(s: Seq<char>)
    ensures
        utf8_len(truncated_error(s)) <= 50,
        utf8_len(s) <= 50 ==> truncated_error(s) == s,
{
    if utf8_len(s) > 50 {
        assert(s.take(0) =~= Seq::<char>::empty());
        lemma_prefix_count_fits(s, 47, 0);
        crate::text::lemma_utf8_len_concat(bytes_prefix(s, 47), "..."@);
        reveal_strlit("...");
        assert(utf8_len("..."@) == 3) by {
            assert("..."@ =~= seq!['.', '.', '.']);
            assert(('.' as u32) == 46u32);
            crate::text::lemma_utf8_len_ascii("..."@);
        }
    }
}

/// Cuts an error message for the sidebar (see `truncated_error`); a cut
/// inside a character is left out by `requires`.
pub fn truncate_error(error: &str) -> (r: String)
    requires
        utf8_len(error@) > 50 ==> is_char_boundary(error@, 47),
    ensures
        r@ == truncated_error(error@),
{
    let v = chars_of(error);
    if !crate::text::utf8_len_exceeds(&v, 50) {
        return String::from_str(error);
    }
    cut_with_ellipsis(error, 47)
}

} // verus!
