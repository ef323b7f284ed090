//! The filter bar's state and what its header buttons do.
use vstd::prelude::*;
use super::condition::ColumnFilter;
use crate::ui::components::grid::state::{filter_view, fresh_filter, FilterView};

verus! {

/// The conditions the filter bar edits.
pub struct FilterBarState {
    pub filters: Vec<ColumnFilter>,
}

impl Default for FilterBarState {
    fn default() -> (r: Self)
        ensures
            r.filters@.len() == 0,
    {
        FilterBarState { filters: Vec::new() }
    }
}

/// The number of switched-on conditions.
pub open spec fn enabled_total(fs: Seq<FilterView>) -> nat
    decreases fs.len(),
{
    if fs.len() == 0 {
        0
    } else {
        enabled_total(fs.drop_last()) + if fs.last().enabled {
            1nat
        } else {
            0nat
        }
    }
}

/// The conditions by their models.
pub open spec fn bar_views(fs: Seq<ColumnFilter>) -> Seq<FilterView> {
    fs.map_values(|f: ColumnFilter| filter_view(f))
}

/// The number of switched-on conditions, shown as "(on/all)" in the header.
pub fn enabled_count(filters: &[ColumnFilter]) -> (r: usize)
    ensures
        r == enabled_total(bar_views(filters@)),
{
    let mut n: usize = 0;
    let mut i: usize = 0;
    while i < filters.len()
        invariant
            i <= filters@.len(),
            n <= i,
            n == enabled_total(bar_views(filters@.take(i as int))),
        decreases filters@.len() - i,
    {
        assert(bar_views(filters@.take(i + 1)).drop_last() =~= bar_views(filters@.take(i as int)));
        if filters[i].enabled {
            n = n + 1;
        }
        i = i + 1;
    }
    assert(filters@.take(filters@.len() as int) =~= filters@);
    n
}

/// "Enable all" / "disable all": every condition switched on or off.
pub fn set_all_enabled(filters: &mut Vec<ColumnFilter>, on: bool)
    ensures
        bar_views(final(filters)@) == bar_views(old(filters)@).map_values(
            |f: FilterView| FilterView { enabled: on, ..f },
        ),
{
    let mut i: usize = 0;
    while i < filters.len()
        invariant
            filters@.len() == old(filters)@.len(),
            i <= filters@.len(),
            forall|j: int|
                0 <= j < filters@.len() ==> #[trigger] filter_view(filters@[j]) == if j < i {
                    FilterView { enabled: on, ..filter_view(old(filters)@[j]) }
                } else {
                    filter_view(old(filters)@[j])
                },
        decreases filters@.len() - i,
    {
        let ghost prev = filters@;
        assert(filter_view(prev[i as int]) == filter_view(old(filters)@[i as int]));
        filters[i].enabled = on;
        assert(filters@ == prev.update(i as int, ColumnFilter { enabled: on, ..prev[i as int] }));
        assert(filter_view(filters@[i as int]) == FilterView { enabled: on, ..filter_view(prev[i as int]) });
        assert forall|j: int| 0 <= j < filters@.len() && j != i implies filters@[j] == prev[j] by {}
        i = i + 1;
    }
    assert(bar_views(filters@) =~= bar_views(old(filters)@).map_values(
        |f: FilterView| FilterView { enabled: on, ..f },
    ));
}

/// "+ Add": a new condition on the first column (on an unnamed column when
/// there are none).
pub fn add_filter(filters: &mut Vec<ColumnFilter>, columns: &[String])
    ensures
        bar_views(final(filters)@) == bar_views(old(filters)@).push(
            fresh_filter(if columns@.len() > 0 { columns@[0]@ } else { seq![] }),
        ),
{
    let column = if columns.len() > 0 { columns[0].clone() } else { String::new() };
    let ghost name = column@;
    assert(name =~= (if columns@.len() > 0 { columns@[0]@ } else { seq![] }));
    let f = ColumnFilter::new(column);
    assert(f.value@ =~= seq![]);
    assert(f.value2@ =~= seq![]);
    assert(filter_view(f) == fresh_filter(name));
    filters.push(f);
    assert(bar_views(filters@) =~= bar_views(old(filters)@).push(filter_view(f)));
}

} // verus!
