//! The search bar's result count, and the widgets that only draw.
use vstd::prelude::*;
use crate::text::{decimal, push_decimal};

verus! {

/// The search bar widget.
pub struct SearchBar;

/// The welcome page widget.
pub struct Welcome;

/// The notification toasts widget.
pub struct NotificationToast;

/// The search bar's count of rows: `共 N 行` when nothing is filtered out,
/// else `显示 F / N 行`.
pub open spec fn result_count_text(filtered: nat, total: nat) -> Seq<char> {
    if filtered == total {
        "共 "@ + decimal(total) + " 行"@
    } else {
        "显示 "@ + decimal(filtered) + " / "@ + decimal(total) + " 行"@
    }
}

impl SearchBar {
    /// The count of rows shown beside the search box (see `result_count_text`).
    pub fn result_count_label(filtered: u64, total: u64) -> (r: String)
        ensures
            r@ == result_count_text(filtered as nat, total as nat),
    {
        if filtered == total {
            let mut s = String::from_str("共 ");
            push_decimal(&mut s, total);
            s.append(" 行");
            s
        } else {
            let mut s = String::from_str("显示 ");
            push_decimal(&mut s, filtered);
            s.append(" / ");
            push_decimal(&mut s, total);
            s.append(" 行");
            s
        }
    }
}

} // verus!
