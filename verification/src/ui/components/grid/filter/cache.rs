//! Row filtering (search text plus AND/OR conditions) and its cache.
use vstd::prelude::*;
use std::collections::hash_map::DefaultHasher;
use std::hash::Hasher;
use crate::database::QueryResult;
use crate::text::{
    chars_of, contains_exec, contains_sub, str_eq, str_to_lowercase, to_lowercase, views,
};
use super::condition::ColumnFilter;
use super::logic::FilterLogic;
use super::operators::{check_filter_match, filter_match, FilterOperator, NumKey};

verus! {

// ---------------------------------------------------------------------------
// Numeric keys supplied with the data
// ---------------------------------------------------------------------------

/// How the cells and the filter values read as numbers (see `NumKey`):
/// one key per cell, row by row, and one key per filter for each of its values.
pub struct NumericKeys {
    pub cells: Vec<Vec<NumKey>>,
    pub values: Vec<NumKey>,
    pub values2: Vec<NumKey>,
}

/// The keys have the shape of the result and of the filter list.
pub open spec fn keys_fit(keys: NumericKeys, result: QueryResult, filters: Seq<ColumnFilter>) -> bool {
    &&& keys.cells@.len() == result.rows@.len()
    &&& forall|r: int|
        0 <= r < result.rows@.len() ==> (#[trigger] keys.cells@[r])@.len()
            == result.rows@[r]@.len()
    &&& keys.values@.len() == filters.len()
    &&& keys.values2@.len() == filters.len()
}

// ---------------------------------------------------------------------------
// What a row must satisfy
// ---------------------------------------------------------------------------

/// The first index at or after `i` whose name is `name` (or the count).
pub open spec fn position_from(cols: Seq<Seq<char>>, name: Seq<char>, i: int) -> int
    decreases cols.len() - i,
{
    if i >= cols.len() {
        cols.len() as int
    } else if cols[i] == name {
        i
    } else {
        position_from(cols, name, i + 1)
    }
}

/// The search text occurs (ignoring case) in the searched column, or in any cell.
pub open spec fn search_match(
    cols: Seq<Seq<char>>,
    row: Seq<Seq<char>>,
    search: Seq<char>,
    search_column: Option<Seq<char>>,
) -> bool {
    if search.len() == 0 {
        true
    } else {
        match search_column {
            Some(name) => {
                let idx = position_from(cols, name, 0);
                idx < cols.len() && idx < row.len() && contains_sub(
                    str_to_lowercase(row[idx]),
                    str_to_lowercase(search),
                )
            },
            None => exists|j: int|
                0 <= j < row.len() && contains_sub(
                    str_to_lowercase(#[trigger] row[j]),
                    str_to_lowercase(search),
                ),
        }
    }
}

/// One condition holds for a row: its column exists and the cell matches.
pub open spec fn condition_match(
    cols: Seq<Seq<char>>,
    row: Seq<Seq<char>>,
    row_keys: Seq<NumKey>,
    f: ColumnFilter,
    value_key: NumKey,
    value2_key: NumKey,
) -> bool {
    let idx = position_from(cols, f.column@, 0);
    idx < cols.len() && idx < row.len() && filter_match(
        row[idx],
        row_keys[idx],
        f.operator,
        f.value@,
        value_key,
        f.value2@,
        value2_key,
        f.case_sensitive,
    )
}

/// The outcomes of the enabled conditions, each with its connective to the next.
pub open spec fn outcomes(
    cols: Seq<Seq<char>>,
    row: Seq<Seq<char>>,
    row_keys: Seq<NumKey>,
    fs: Seq<ColumnFilter>,
    vks: Seq<NumKey>,
    v2ks: Seq<NumKey>,
) -> Seq<(bool, FilterLogic)>
    decreases fs.len(),
{
    if fs.len() == 0 {
        seq![]
    } else {
        let rest = outcomes(
            cols,
            row,
            row_keys,
            fs.drop_last(),
            vks.take(fs.len() - 1),
            v2ks.take(fs.len() - 1),
        );
        if fs.last().enabled {
            rest.push(
                (
                    condition_match(
                        cols,
                        row,
                        row_keys,
                        fs.last(),
                        vks[fs.len() - 1],
                        v2ks[fs.len() - 1],
                    ),
                    fs.last().logic,
                ),
            )
        } else {
            rest
        }
    }
}

/// Combines outcomes left to right, each with the connective of the one before.
pub open spec fn combine(ms: Seq<(bool, FilterLogic)>) -> bool
    decreases ms.len(),
{
    if ms.len() == 0 {
        true
    } else if ms.len() == 1 {
        ms[0].0
    } else {
        let p = ms.drop_last();
        match p.last().1 {
            FilterLogic::And => combine(p) && ms.last().0,
            FilterLogic::Or => combine(p) || ms.last().0,
        }
    }
}

/// Whether row `r` passes the search and the conditions.
pub open spec fn row_passes(
    result: QueryResult,
    keys: NumericKeys,
    search: Seq<char>,
    search_column: Option<Seq<char>>,
    filters: Seq<ColumnFilter>,
    r: int,
) -> bool {
    let cols = result.column_views();
    let row = result.row_views()[r];
    search_match(cols, row, search, search_column) && combine(
        outcomes(cols, row, keys.cells@[r]@, filters, keys.values@, keys.values2@),
    )
}

/// The indices of the first `n` rows that pass, in order.
pub open spec fn passing_indices(
    result: QueryResult,
    keys: NumericKeys,
    search: Seq<char>,
    search_column: Option<Seq<char>>,
    filters: Seq<ColumnFilter>,
    n: int,
) -> Seq<usize>
    decreases n,
{
    if n <= 0 {
        seq![]
    } else {
        let rest = passing_indices(result, keys, search, search_column, filters, n - 1);
        if row_passes(result, keys, search, search_column, filters, n - 1) {
            rest.push((n - 1) as usize)
        } else {
            rest
        }
    }
}

/// Conditions joined by AND alone pass exactly when each passes; joined by
/// OR alone, exactly when one passes. No enabled condition lets every row
/// through.
pub proof fn lemma_combine_and_or(ms: Seq<(bool, FilterLogic)>)
    ensures
        ms.len() == 0 ==> combine(ms),
        (forall|k: int| 0 <= k < ms.len() - 1 ==> (#[trigger] ms[k]).1 == FilterLogic::And) ==> (
        combine(ms) <==> forall|k: int| 0 <= k < ms.len() ==> (#[trigger] ms[k]).0),
        ms.len() > 0 && (forall|k: int| 0 <= k < ms.len() - 1 ==> (#[trigger] ms[k]).1
            == FilterLogic::Or) ==> (combine(ms) <==> exists|k: int| 0 <= k < ms.len() && (#[trigger] ms[k]).0),
    decreases ms.len(),
{
    if ms.len() > 1 {
        let p = ms.drop_last();
        lemma_combine_and_or(p);
        assert forall|k: int| 0 <= k < p.len() implies p[k] == ms[k] by {}
        if forall|k: int| 0 <= k < ms.len() - 1 ==> (#[trigger] ms[k]).1 == FilterLogic::And {
            assert(p.last() == ms[ms.len() - 2]);
            assert forall|k: int| 0 <= k < p.len() - 1 implies (#[trigger] p[k]).1 == FilterLogic::And by {
                assert(p[k] == ms[k]);
            }
            if combine(ms) {
                assert forall|k: int| 0 <= k < ms.len() implies (#[trigger] ms[k]).0 by {
                    if k < ms.len() - 1 {
                        assert(p[k] == ms[k]);
                    }
                }
            }
            if forall|k: int| 0 <= k < ms.len() ==> (#[trigger] ms[k]).0 {
                assert forall|k: int| 0 <= k < p.len() implies (#[trigger] p[k]).0 by {
                    assert(p[k] == ms[k]);
                }
                assert(ms[ms.len() - 1].0);
            }
        }
        if forall|k: int| 0 <= k < ms.len() - 1 ==> (#[trigger] ms[k]).1 == FilterLogic::Or {
            assert(p.last() == ms[ms.len() - 2]);
            assert forall|k: int| 0 <= k < p.len() - 1 implies (#[trigger] p[k]).1 == FilterLogic::Or by {
                assert(p[k] == ms[k]);
            }
            if combine(ms) {
                if combine(p) {
                    let k = choose|k: int| 0 <= k < p.len() && (#[trigger] p[k]).0;
                    assert(ms[k].0);
                } else {
                    assert(ms[ms.len() - 1].0);
                }
            }
            if exists|k: int| 0 <= k < ms.len() && (#[trigger] ms[k]).0 {
                let k = choose|k: int| 0 <= k < ms.len() && (#[trigger] ms[k]).0;
                if k < ms.len() - 1 {
                    assert(p[k].0);
                }
            }
        }
    }
}

proof fn lemma_disabled_outcomes(
    cols: Seq<Seq<char>>,
    row: Seq<Seq<char>>,
    row_keys: Seq<NumKey>,
    fs: Seq<ColumnFilter>,
    vks: Seq<NumKey>,
    v2ks: Seq<NumKey>,
)
    requires
        forall|k: int| 0 <= k < fs.len() ==> !(#[trigger] fs[k]).enabled,
    ensures
        outcomes(cols, row, row_keys, fs, vks, v2ks).len() == 0,
    decreases fs.len(),
{
    if fs.len() > 0 {
        assert forall|k: int| 0 <= k < fs.drop_last().len() implies !(#[trigger] fs.drop_last()[k]).enabled by {
            assert(fs.drop_last()[k] == fs[k]);
        }
        lemma_disabled_outcomes(
            cols,
            row,
            row_keys,
            fs.drop_last(),
            vks.take(fs.len() - 1),
            v2ks.take(fs.len() - 1),
        );
        assert(!fs[fs.len() - 1].enabled);
    }
}

/// Disabled conditions filter nothing: with no search text and no enabled
/// condition, every row passes.
pub proof fn lemma_nothing_enabled_passes_all(
    result: QueryResult,
    keys: NumericKeys,
    search_column: Option<Seq<char>>,
    filters: Seq<ColumnFilter>,
    r: int,
)
    requires
        forall|k: int| 0 <= k < filters.len() ==> !(#[trigger] filters[k]).enabled,
    ensures
        row_passes(result, keys, seq![], search_column, filters, r),
{
    let cols = result.column_views();
    let row = result.row_views()[r];
    lemma_disabled_outcomes(cols, row, keys.cells@[r]@, filters, keys.values@, keys.values2@);
}

/// The filtered rows are exactly the rows that pass, each once, in
/// increasing order.
pub proof fn lemma_passing_indices_exact(
    result: QueryResult,
    keys: NumericKeys,
    search: Seq<char>,
    search_column: Option<Seq<char>>,
    filters: Seq<ColumnFilter>,
    n: int,
)
    requires
        0 <= n <= usize::MAX + 1,
    ensures
        forall|r: int|
            0 <= r < n ==> (passing_indices(result, keys, search, search_column, filters, n).contains(
                r as usize,
            ) <==> row_passes(result, keys, search, search_column, filters, r)),
        forall|k: int|
            0 <= k < passing_indices(result, keys, search, search_column, filters, n).len() ==> (
            #[trigger] passing_indices(result, keys, search, search_column, filters, n)[k] as int)
                < n,
        forall|a: int, b: int|
            0 <= a < b < passing_indices(result, keys, search, search_column, filters, n).len() ==> (
            #[trigger] passing_indices(result, keys, search, search_column, filters, n)[a])
                < (#[trigger] passing_indices(result, keys, search, search_column, filters, n)[b]),
    decreases n,
{
    if n > 0 {
        lemma_passing_indices_exact(result, keys, search, search_column, filters, n - 1);
        let rest = passing_indices(result, keys, search, search_column, filters, n - 1);
        let all = passing_indices(result, keys, search, search_column, filters, n);
        assert forall|r: int| 0 <= r < n implies (all.contains(r as usize) <==> row_passes(
            result,
            keys,
            search,
            search_column,
            filters,
            r,
        )) by {
            if all.contains(r as usize) {
                let k = choose|k: int| 0 <= k < all.len() && all[k] == r as usize;
                if k < rest.len() {
                    assert(all[k] == rest[k]);
                    assert(rest.contains(r as usize));
                }
            }
            if row_passes(result, keys, search, search_column, filters, r) {
                if r < n - 1 {
                    assert(rest.contains(r as usize));
                    let k = choose|k: int| 0 <= k < rest.len() && rest[k] == r as usize;
                    assert(all[k] == rest[k]);
                } else {
                    assert(all[all.len() - 1] == r as usize);
                }
            }
        }
    }
}

/// The view of an optional string.
pub open spec fn opt_view(o: Option<String>) -> Option<Seq<char>> {
    match o {
        Some(s) => Some(s@),
        None => None,
    }
}

/// The pairs are the given rows of the result, with their indices.
pub open spec fn pairs_are(pairs: Seq<(usize, &Vec<String>)>, result: QueryResult, idx: Seq<usize>) -> bool {
    &&& pairs.len() == idx.len()
    &&& forall|k: int|
        0 <= k < pairs.len() ==> (#[trigger] pairs[k]).0 == idx[k] && (idx[k] as int)
            < result.rows@.len() && *pairs[k].1 == result.rows@[idx[k] as int]
}

fn position_exec(cols: &Vec<String>, name: &str) -> (r: usize)
    ensures
        r == position_from(views(cols@), name@, 0),
{
    let mut i: usize = 0;
    while i < cols.len()
        invariant
            i <= cols.len(),
            position_from(views(cols@), name@, 0) == position_from(views(cols@), name@, i as int),
        decreases cols.len() - i,
    {
        if str_eq(cols[i].as_str(), name) {
            return i;
        }
        i = i + 1;
    }
    i
}

fn search_match_exec(
    result: &QueryResult,
    row: &Vec<String>,
    search_text: &str,
    search_lower: &Vec<char>,
    search_column: &Option<String>,
) -> (r: bool)
    requires
        search_lower@ == str_to_lowercase(search_text@),
    ensures
        r == search_match(result.column_views(), views(row@), search_text@, opt_view(*search_column)),
{
    if search_text.is_empty() {
        return true;
    }
    match search_column {
        Some(col_name) => {
            let idx = position_exec(&result.columns, col_name.as_str());
            if idx < result.columns.len() && idx < row.len() {
                let low = to_lowercase(row[idx].as_str());
                let lv = chars_of(low.as_str());
                contains_exec(&lv, search_lower)
            } else {
                false
            }
        },
        None => {
            let mut j: usize = 0;
            while j < row.len()
                invariant
                    j <= row.len(),
                    search_text@.len() > 0,
                    *search_column is None,
                    search_lower@ == str_to_lowercase(search_text@),
                    forall|k: int|
                        0 <= k < j ==> !contains_sub(
                            str_to_lowercase(#[trigger] views(row@)[k]),
                            str_to_lowercase(search_text@),
                        ),
                decreases row.len() - j,
            {
                let low = to_lowercase(row[j].as_str());
                let lv = chars_of(low.as_str());
                if contains_exec(&lv, search_lower) {
                    assert(views(row@)[j as int] == row@[j as int]@);
                    assert(contains_sub(
                        str_to_lowercase(views(row@)[j as int]),
                        str_to_lowercase(search_text@),
                    ));
                    return true;
                }
                j = j + 1;
            }
            false
        },
    }
}

fn condition_match_exec(
    result: &QueryResult,
    row: &Vec<String>,
    row_keys: &Vec<NumKey>,
    f: &ColumnFilter,
    value_key: NumKey,
    value2_key: NumKey,
) -> (r: bool)
    requires
        row_keys@.len() == row@.len(),
    ensures
        r == condition_match(
            result.column_views(),
            views(row@),
            row_keys@,
            *f,
            value_key,
            value2_key,
        ),
{
    let idx = position_exec(&result.columns, f.column.as_str());
    if idx < result.columns.len() && idx < row.len() {
        check_filter_match(
            row[idx].as_str(),
            row_keys[idx],
            &f.operator,
            f.value.as_str(),
            value_key,
            f.value2.as_str(),
            value2_key,
            f.case_sensitive,
        )
    } else {
        false
    }
}

fn row_passes_exec(
    result: &QueryResult,
    keys: &NumericKeys,
    r: usize,
    search_text: &str,
    search_lower: &Vec<char>,
    search_column: &Option<String>,
    filters: &[ColumnFilter],
) -> (b: bool)
    requires
        keys_fit(*keys, *result, filters@),
        r < result.rows@.len(),
        search_lower@ == str_to_lowercase(search_text@),
    ensures
        b == row_passes(*result, *keys, search_text@, opt_view(*search_column), filters@, r as int),
{
    let row = &result.rows[r];
    let row_keys = &keys.cells[r];
    assert(result.row_views()[r as int] == views(row@));
    if !search_match_exec(result, row, search_text, search_lower, search_column) {
        return false;
    }
    let ghost cols = result.column_views();
    let ghost rowv = views(row@);
    let mut current = true;
    let mut pending = FilterLogic::And;
    let mut seen = false;
    let mut i: usize = 0;
    while i < filters.len()
        invariant
            keys_fit(*keys, *result, filters@),
            r < result.rows@.len(),
            row == &result.rows@[r as int],
            row_keys == &keys.cells@[r as int],
            row_keys@.len() == row@.len(),
            cols == result.column_views(),
            rowv == views(row@),
            i <= filters.len(),
            ({
                let ms = outcomes(
                    cols,
                    rowv,
                    row_keys@,
                    filters@.take(i as int),
                    keys.values@.take(i as int),
                    keys.values2@.take(i as int),
                );
                &&& seen == (ms.len() > 0)
                &&& current == combine(ms)
                &&& seen ==> pending == ms.last().1
            }),
        decreases filters.len() - i,
    {
        let ghost ms = outcomes(
            cols,
            rowv,
            row_keys@,
            filters@.take(i as int),
            keys.values@.take(i as int),
            keys.values2@.take(i as int),
        );
        assert(filters@.take(i + 1).drop_last() == filters@.take(i as int));
        assert(keys.values@.take(i + 1).take(i as int) == keys.values@.take(i as int));
        assert(keys.values2@.take(i + 1).take(i as int) == keys.values2@.take(i as int));
        let f = &filters[i];
        if f.enabled {
            let m = condition_match_exec(
                result,
                row,
                row_keys,
                f,
                keys.values[i],
                keys.values2[i],
            );
            let ghost ms2 = ms.push((m, f.logic));
            assert(ms2.drop_last() == ms);
            if !seen {
                current = m;
            } else {
                match pending {
                    FilterLogic::And => current = current && m,
                    FilterLogic::Or => current = current || m,
                }
            }
            pending = f.logic;
            seen = true;
        }
        i = i + 1;
    }
    assert(filters@.take(filters.len() as int) == filters@);
    assert(keys.values@.take(filters.len() as int) == keys.values@);
    assert(keys.values2@.take(filters.len() as int) == keys.values2@);
    current
}

/// The rows that pass the search and the enabled conditions, with their indices.
pub fn filter_rows_internal<'a>(
    result: &'a QueryResult,
    keys: &NumericKeys,
    search_text: &str,
    search_column: &Option<String>,
    filters: &[ColumnFilter],
) -> (r: Vec<(usize, &'a Vec<String>)>)
    requires
        keys_fit(*keys, *result, filters@),
    ensures
        pairs_are(
            r@,
            *result,
            passing_indices(
                *result,
                *keys,
                search_text@,
                opt_view(*search_column),
                filters@,
                result.rows@.len() as int,
            ),
        ),
{
    let low = to_lowercase(search_text);
    let search_lower = chars_of(low.as_str());
    let mut out: Vec<(usize, &'a Vec<String>)> = Vec::new();
    let mut i: usize = 0;
    while i < result.rows.len()
        invariant
            keys_fit(*keys, *result, filters@),
            search_lower@ == str_to_lowercase(search_text@),
            i <= result.rows@.len(),
            pairs_are(
                out@,
                *result,
                passing_indices(
                    *result,
                    *keys,
                    search_text@,
                    opt_view(*search_column),
                    filters@,
                    i as int,
                ),
            ),
        decreases result.rows.len() - i,
    {
        if row_passes_exec(result, keys, i, search_text, &search_lower, search_column, filters) {
            out.push((i, &result.rows[i]));
        }
        i = i + 1;
    }
    out
}

// ---------------------------------------------------------------------------
// Hashing the filter list
// ---------------------------------------------------------------------------

/// The writes `<str as Hash>::hash` makes to a hasher for a text.
pub uninterp spec fn text_hash_writes(s: Seq<char>) -> Seq<Seq<u8>>;

/// The writes `<bool as Hash>::hash` makes to a hasher.
pub uninterp spec fn flag_hash_writes(b: bool) -> Seq<Seq<u8>>;

/// The writes that hashing `std::mem::discriminant` of an operator makes.
pub uninterp spec fn operator_hash_writes(op: FilterOperator) -> Seq<Seq<u8>>;

/// The writes that hashing `std::mem::discriminant` of a connective makes.
pub uninterp spec fn logic_hash_writes(l: FilterLogic) -> Seq<Seq<u8>>;

/// Two write records differ at some position both reach, so neither is a
/// prefix of the other.
pub open spec fn writes_diverge(a: Seq<Seq<u8>>, b: Seq<Seq<u8>>) -> bool {
    exists|i: int| 0 <= i < a.len() && 0 <= i < b.len() && a[i] != b[i]
}

/// `<str as Hash>::hash`: appends the writes for a text to the hasher's
/// record. As std's `Hash` documentation requires of its implementations
/// ("prefix collisions"; for `str` an extra `0xFF` byte is written to that
/// end), the writes of any other text diverge from these.
#[verifier::external_body]
fn feed_text(h: &mut DefaultHasher, s: &str)
    ensures
        final(h)@ == old(h)@ + text_hash_writes(s@),
        forall|t: Seq<char>|
            t != s@ ==> writes_diverge(
                #[trigger] text_hash_writes(t),
                final(h)@.skip(old(h)@.len() as int),
            ),
{
    std::hash::Hash::hash(s, h)
}

/// `<bool as Hash>::hash`: appends the writes for a flag to the hasher's
/// record; those of the other flag diverge from them (std's `Hash`
/// documentation: unequal values write sequences neither of which is a
/// prefix of the other).
#[verifier::external_body]
fn feed_flag(h: &mut DefaultHasher, b: bool)
    ensures
        final(h)@ == old(h)@ + flag_hash_writes(b),
        writes_diverge(flag_hash_writes(!b), final(h)@.skip(old(h)@.len() as int)),
{
    std::hash::Hash::hash(&b, h)
}

/// `Hash` of `std::mem::discriminant` of an operator: appends the writes for
/// which operator it is. Another operator has another discriminant, whose
/// writes diverge from these (std's `Hash` documentation on prefix
/// collisions).
#[verifier::external_body]
fn feed_operator(h: &mut DefaultHasher, op: &FilterOperator)
    ensures
        final(h)@ == old(h)@ + operator_hash_writes(*op),
        forall|o: FilterOperator|
            o != *op ==> writes_diverge(
                #[trigger] operator_hash_writes(o),
                final(h)@.skip(old(h)@.len() as int),
            ),
{
    std::hash::Hash::hash(&std::mem::discriminant(op), h)
}

/// `Hash` of `std::mem::discriminant` of a connective: appends the writes for
/// which connective it is. The other connective has another discriminant,
/// whose writes diverge from these (std's `Hash` documentation on prefix
/// collisions).
#[verifier::external_body]
fn feed_logic(h: &mut DefaultHasher, l: &FilterLogic)
    ensures
        final(h)@ == old(h)@ + logic_hash_writes(*l),
        forall|o: FilterLogic|
            o != *l ==> writes_diverge(
                #[trigger] logic_hash_writes(o),
                final(h)@.skip(old(h)@.len() as int),
            ),
{
    std::hash::Hash::hash(&std::mem::discriminant(l), h)
}

/// The writes made when hashing a filter list: for each filter its column,
/// value, second value, enabled flag, case flag, operator and connective.
pub open spec fn filter_hash_items(fs: Seq<ColumnFilter>) -> Seq<Seq<u8>>
    decreases fs.len(),
{
    if fs.len() == 0 {
        seq![]
    } else {
        let f = fs.last();
        filter_hash_items(fs.drop_last()) + text_hash_writes(f.column@) + text_hash_writes(
            f.value@,
        ) + text_hash_writes(f.value2@) + flag_hash_writes(f.enabled) + flag_hash_writes(
            f.case_sensitive,
        ) + operator_hash_writes(f.operator) + logic_hash_writes(f.logic)
    }
}

/// The hash of a filter list: what a fresh `DefaultHasher` finishes with.
pub open spec fn filters_hash(fs: Seq<ColumnFilter>) -> u64 {
    <DefaultHasher as vstd::std_specs::hash::DefaultHasherAdditionalSpecFns>::spec_finish(
        filter_hash_items(fs),
    )
}

/// The writes of one filter, field by field.
pub open spec fn filter_writes(f: ColumnFilter) -> Seq<Seq<u8>> {
    text_hash_writes(f.column@) + (text_hash_writes(f.value@) + (text_hash_writes(f.value2@) + (
    flag_hash_writes(f.enabled) + (flag_hash_writes(f.case_sensitive) + (operator_hash_writes(
        f.operator,
    ) + logic_hash_writes(f.logic))))))
}

/// Every field of the filter writes what no other value of that field
/// writes: the writes of any other value diverge from its own.
pub open spec fn fields_hash_apart(f: ColumnFilter) -> bool {
    &&& forall|t: Seq<char>|
        t != f.column@ ==> writes_diverge(#[trigger] text_hash_writes(t), text_hash_writes(f.column@))
    &&& forall|t: Seq<char>|
        t != f.value@ ==> writes_diverge(#[trigger] text_hash_writes(t), text_hash_writes(f.value@))
    &&& forall|t: Seq<char>|
        t != f.value2@ ==> writes_diverge(#[trigger] text_hash_writes(t), text_hash_writes(f.value2@))
    &&& writes_diverge(flag_hash_writes(!f.enabled), flag_hash_writes(f.enabled))
    &&& writes_diverge(flag_hash_writes(!f.case_sensitive), flag_hash_writes(f.case_sensitive))
    &&& forall|o: FilterOperator|
        o != f.operator ==> writes_diverge(#[trigger] operator_hash_writes(o), operator_hash_writes(f.operator))
    &&& forall|o: FilterLogic|
        o != f.logic ==> writes_diverge(#[trigger] logic_hash_writes(o), logic_hash_writes(f.logic))
}

/// Two filters agree on every field that is hashed.
pub open spec fn same_fields(a: ColumnFilter, b: ColumnFilter) -> bool {
    &&& a.column@ == b.column@
    &&& a.value@ == b.value@
    &&& a.value2@ == b.value2@
    &&& a.enabled == b.enabled
    &&& a.case_sensitive == b.case_sensitive
    &&& a.operator == b.operator
    &&& a.logic == b.logic
}

proof fn lemma_peel(x: Seq<Seq<u8>>, y: Seq<Seq<u8>>, a: Seq<Seq<u8>>, b: Seq<Seq<u8>>)
    requires
        x + a == y + b,
        x == y || writes_diverge(x, y),
    ensures
        x == y,
        a == b,
{
    if x != y {
        let i = choose|i: int| 0 <= i < x.len() && 0 <= i < y.len() && x[i] != y[i];
        assert((x + a)[i] == x[i]);
        assert((y + b)[i] == y[i]);
    }
    assert(a =~= (x + a).skip(x.len() as int));
    assert(b =~= (y + b).skip(y.len() as int));
}

proof fn lemma_assoc(x: Seq<Seq<u8>>, y: Seq<Seq<u8>>, z: Seq<Seq<u8>>)
    ensures
        (x + y) + z == x + (y + z),
{
    assert((x + y) + z =~= x + (y + z));
}

proof fn lemma_peel_filter(o: ColumnFilter, f: ColumnFilter, ro: Seq<Seq<u8>>, rf: Seq<Seq<u8>>)
    requires
        fields_hash_apart(f),
        filter_writes(o) + ro == filter_writes(f) + rf,
    ensures
        same_fields(o, f),
        ro == rf,
{
    let o6 = logic_hash_writes(o.logic);
    let f6 = logic_hash_writes(f.logic);
    let o5 = operator_hash_writes(o.operator) + o6;
    let f5 = operator_hash_writes(f.operator) + f6;
    let o4 = flag_hash_writes(o.case_sensitive) + o5;
    let f4 = flag_hash_writes(f.case_sensitive) + f5;
    let o3 = flag_hash_writes(o.enabled) + o4;
    let f3 = flag_hash_writes(f.enabled) + f4;
    let o2 = text_hash_writes(o.value2@) + o3;
    let f2 = text_hash_writes(f.value2@) + f3;
    let o1 = text_hash_writes(o.value@) + o2;
    let f1 = text_hash_writes(f.value@) + f2;
    assert(filter_writes(o) == text_hash_writes(o.column@) + o1);
    assert(filter_writes(f) == text_hash_writes(f.column@) + f1);
    lemma_assoc(text_hash_writes(o.column@), o1, ro);
    lemma_assoc(text_hash_writes(f.column@), f1, rf);
    lemma_peel(text_hash_writes(o.column@), text_hash_writes(f.column@), o1 + ro, f1 + rf);
    lemma_assoc(text_hash_writes(o.value@), o2, ro);
    lemma_assoc(text_hash_writes(f.value@), f2, rf);
    lemma_peel(text_hash_writes(o.value@), text_hash_writes(f.value@), o2 + ro, f2 + rf);
    lemma_assoc(text_hash_writes(o.value2@), o3, ro);
    lemma_assoc(text_hash_writes(f.value2@), f3, rf);
    lemma_peel(text_hash_writes(o.value2@), text_hash_writes(f.value2@), o3 + ro, f3 + rf);
    lemma_assoc(flag_hash_writes(o.enabled), o4, ro);
    lemma_assoc(flag_hash_writes(f.enabled), f4, rf);
    lemma_peel(flag_hash_writes(o.enabled), flag_hash_writes(f.enabled), o4 + ro, f4 + rf);
    lemma_assoc(flag_hash_writes(o.case_sensitive), o5, ro);
    lemma_assoc(flag_hash_writes(f.case_sensitive), f5, rf);
    lemma_peel(
        flag_hash_writes(o.case_sensitive),
        flag_hash_writes(f.case_sensitive),
        o5 + ro,
        f5 + rf,
    );
    lemma_assoc(operator_hash_writes(o.operator), o6, ro);
    lemma_assoc(operator_hash_writes(f.operator), f6, rf);
    lemma_peel(operator_hash_writes(o.operator), operator_hash_writes(f.operator), o6 + ro, f6 + rf);
    lemma_peel(o6, f6, ro, rf);
}

proof fn lemma_hash_items_last(fs: Seq<ColumnFilter>)
    requires
        fs.len() > 0,
    ensures
        filter_hash_items(fs) == filter_hash_items(fs.drop_last()) + filter_writes(fs.last()),
{
    let f = fs.last();
    let a = filter_hash_items(fs.drop_last());
    let t1 = text_hash_writes(f.column@);
    let t2 = text_hash_writes(f.value@);
    let t3 = text_hash_writes(f.value2@);
    let b1 = flag_hash_writes(f.enabled);
    let b2 = flag_hash_writes(f.case_sensitive);
    let p = operator_hash_writes(f.operator);
    let q = logic_hash_writes(f.logic);
    assert(filter_hash_items(fs) == a + t1 + t2 + t3 + b1 + b2 + p + q);
    lemma_assoc(a + t1 + t2 + t3 + b1 + b2, p, q);
    lemma_assoc(a + t1 + t2 + t3 + b1, b2, p + q);
    lemma_assoc(a + t1 + t2 + t3, b1, b2 + (p + q));
    lemma_assoc(a + t1 + t2, t3, b1 + (b2 + (p + q)));
    lemma_assoc(a + t1, t2, t3 + (b1 + (b2 + (p + q))));
    lemma_assoc(a, t1, t2 + (t3 + (b1 + (b2 + (p + q)))));
}

proof fn lemma_hash_items_front(fs: Seq<ColumnFilter>)
    requires
        fs.len() > 0,
    ensures
        filter_hash_items(fs) == filter_writes(fs[0]) + filter_hash_items(fs.drop_first()),
    decreases fs.len(),
{
    lemma_hash_items_last(fs);
    if fs.len() == 1 {
        assert(fs.drop_last() =~= Seq::<ColumnFilter>::empty());
        assert(fs.drop_first() =~= Seq::<ColumnFilter>::empty());
        assert(filter_hash_items(fs.drop_last()) =~= Seq::<Seq<u8>>::empty());
        assert(filter_hash_items(fs) =~= filter_writes(fs[0]) + filter_hash_items(fs.drop_first()));
    } else {
        lemma_hash_items_front(fs.drop_last());
        let df = fs.drop_first();
        lemma_hash_items_last(df);
        assert(df.drop_last() =~= fs.drop_last().drop_first());
        assert(df.last() == fs.last());
        assert(fs.drop_last()[0] == fs[0]);
        lemma_assoc(
            filter_writes(fs[0]),
            filter_hash_items(fs.drop_last().drop_first()),
            filter_writes(fs.last()),
        );
    }
}

/// The hash of a filter list takes in every field of every filter: when the
/// writes of each field are apart from those of any other value (as std's
/// `Hash` makes them), two lists of the same length whose hash writes agree
/// agree filter by filter on column, value, second value, enabled flag,
/// case sensitivity, operator and connective. So changing any one of these
/// in any filter changes what is hashed.
pub proof fn lemma_filter_hash_items_injective(fs: Seq<ColumnFilter>, other: Seq<ColumnFilter>)
    requires
        forall|j: int| 0 <= j < fs.len() ==> fields_hash_apart(#[trigger] fs[j]),
        other.len() == fs.len(),
        filter_hash_items(other) == filter_hash_items(fs),
    ensures
        forall|j: int|
            0 <= j < fs.len() ==> {
                &&& (#[trigger] other[j]).column@ == fs[j].column@
                &&& other[j].value@ == fs[j].value@
                &&& other[j].value2@ == fs[j].value2@
                &&& other[j].enabled == fs[j].enabled
                &&& other[j].case_sensitive == fs[j].case_sensitive
                &&& other[j].operator == fs[j].operator
                &&& other[j].logic == fs[j].logic
            },
    decreases fs.len(),
{
    if fs.len() > 0 {
        lemma_hash_items_front(fs);
        lemma_hash_items_front(other);
        lemma_peel_filter(
            other[0],
            fs[0],
            filter_hash_items(other.drop_first()),
            filter_hash_items(fs.drop_first()),
        );
        assert forall|j: int| 0 <= j < fs.drop_first().len() implies fields_hash_apart(
            #[trigger] fs.drop_first()[j],
        ) by {
            assert(fs.drop_first()[j] == fs[j + 1]);
        }
        lemma_filter_hash_items_injective(fs.drop_first(), other.drop_first());
        assert forall|j: int| 0 <= j < fs.len() implies same_fields(#[trigger] other[j], fs[j]) by {
            if j > 0 {
                assert(same_fields(other.drop_first()[j - 1], fs.drop_first()[j - 1]));
                assert(other.drop_first()[j - 1] == other[j]);
                assert(fs.drop_first()[j - 1] == fs[j]);
            }
        }
    }
}

#[verifier::rlimit(50)]
#[verifier::spinoff_prover]
fn compute_filter_hash(filters: &[ColumnFilter]) -> (r: u64)
    ensures
        r == filters_hash(filters@),
        forall|other: Seq<ColumnFilter>|
            other.len() == filters@.len() && #[trigger] filter_hash_items(other)
                == filter_hash_items(filters@) ==> forall|j: int|
                0 <= j < other.len() ==> {
                    &&& (#[trigger] other[j]).column@ == filters@[j].column@
                    &&& other[j].value@ == filters@[j].value@
                    &&& other[j].value2@ == filters@[j].value2@
                    &&& other[j].enabled == filters@[j].enabled
                    &&& other[j].case_sensitive == filters@[j].case_sensitive
                    &&& other[j].operator == filters@[j].operator
                    &&& other[j].logic == filters@[j].logic
                },
{
    let mut h = DefaultHasher::new();
    let mut i: usize = 0;
    while i < filters.len()
        invariant
            i <= filters.len(),
            h@ == filter_hash_items(filters@.take(i as int)),
            forall|j: int| 0 <= j < i ==> fields_hash_apart(#[trigger] filters@[j]),
        decreases filters.len() - i,
    {
        let f = &filters[i];
        let ghost h0 = h@;
        feed_text(&mut h, f.column.as_str());
        assert(h@.skip(h0.len() as int) =~= text_hash_writes(f.column@));
        let ghost h1 = h@;
        feed_text(&mut h, f.value.as_str());
        assert(h@.skip(h1.len() as int) =~= text_hash_writes(f.value@));
        let ghost h2 = h@;
        feed_text(&mut h, f.value2.as_str());
        assert(h@.skip(h2.len() as int) =~= text_hash_writes(f.value2@));
        let ghost h3 = h@;
        feed_flag(&mut h, f.enabled);
        assert(h@.skip(h3.len() as int) =~= flag_hash_writes(f.enabled));
        let ghost h4 = h@;
        feed_flag(&mut h, f.case_sensitive);
        assert(h@.skip(h4.len() as int) =~= flag_hash_writes(f.case_sensitive));
        let ghost h5 = h@;
        feed_operator(&mut h, &f.operator);
        assert(h@.skip(h5.len() as int) =~= operator_hash_writes(f.operator));
        let ghost h6 = h@;
        feed_logic(&mut h, &f.logic);
        assert(h@.skip(h6.len() as int) =~= logic_hash_writes(f.logic));
        assert(fields_hash_apart(filters@[i as int]));
        assert(filters@.take(i + 1).drop_last() == filters@.take(i as int));
        i = i + 1;
        assert(h@ =~= filter_hash_items(filters@.take(i as int)));
    }
    assert(filters@.take(filters.len() as int) == filters@);
    proof {
        assert forall|other: Seq<ColumnFilter>|
            other.len() == filters@.len() && #[trigger] filter_hash_items(other)
                == filter_hash_items(filters@) implies forall|j: int|
            0 <= j < other.len() ==> {
                &&& (#[trigger] other[j]).column@ == filters@[j].column@
                &&& other[j].value@ == filters@[j].value@
                &&& other[j].value2@ == filters@[j].value2@
                &&& other[j].enabled == filters@[j].enabled
                &&& other[j].case_sensitive == filters@[j].case_sensitive
                &&& other[j].operator == filters@[j].operator
                &&& other[j].logic == filters@[j].logic
            } by {
            lemma_filter_hash_items_injective(filters@, other);
        }
    }
    h.finish()
}

// ---------------------------------------------------------------------------
// The cache
// ---------------------------------------------------------------------------

/// The last filtering: its inputs (the conditions by their hash) and the rows that passed.
pub struct FilterCache {
    pub valid: bool,
    pub last_search_text: String,
    pub last_search_column: Option<String>,
    pub last_filter_hash: u64,
    pub last_row_count: usize,
    pub filtered_indices: Vec<usize>,
}

impl Default for FilterCache {
    fn default() -> (r: Self)
        ensures
            !r.valid,
            r.last_search_text@.len() == 0,
            r.last_search_column is None,
            r.last_filter_hash == 0,
            r.last_row_count == 0,
            r.filtered_indices@.len() == 0,
    {
        FilterCache {
            valid: false,
            last_search_text: String::new(),
            last_search_column: None,
            last_filter_hash: 0,
            last_row_count: 0,
            filtered_indices: Vec::new(),
        }
    }
}

impl FilterCache {
    /// An empty, invalid cache.
    pub fn new() -> (r: Self)
        ensures
            !r.valid,
            r.last_search_text@.len() == 0,
            r.last_search_column is None,
            r.last_filter_hash == 0,
            r.last_row_count == 0,
            r.filtered_indices@.len() == 0,
    {
        FilterCache::default()
    }

    /// Marks the cache stale; everything else is kept.
    pub fn invalidate(&mut self)
        ensures
            !final(self).valid,
            final(self).last_search_text == old(self).last_search_text,
            final(self).last_search_column == old(self).last_search_column,
            final(self).last_filter_hash == old(self).last_filter_hash,
            final(self).last_row_count == old(self).last_row_count,
            final(self).filtered_indices == old(self).filtered_indices,
    {
        self.valid = false;
    }

    /// Whether the cached rows may be used.
    pub fn is_valid(&self) -> (r: bool)
        ensures
            r == self.valid,
    {
        self.valid
    }
}

/// Whether a call with these arguments is answered from the cache.
pub open spec fn cache_hit(
    cache: FilterCache,
    result: QueryResult,
    search: Seq<char>,
    search_column: Option<Seq<char>>,
    filters: Seq<ColumnFilter>,
) -> bool {
    &&& cache.valid
    &&& cache.last_search_text@ == search
    &&& opt_view(cache.last_search_column) == search_column
    &&& cache.last_filter_hash == filters_hash(filters)
    &&& cache.last_row_count == result.rows@.len()
}

/// The cached indices that still name a row.
pub open spec fn cached_rows(idx: Seq<usize>, n: nat) -> Seq<usize>
    decreases idx.len(),
{
    if idx.len() == 0 {
        seq![]
    } else if (idx.last() as int) < n {
        cached_rows(idx.drop_last(), n).push(idx.last())
    } else {
        cached_rows(idx.drop_last(), n)
    }
}

/// What the cache holds after a fresh filtering with these arguments.
pub open spec fn cache_filled(
    cache: FilterCache,
    result: QueryResult,
    keys: NumericKeys,
    search: Seq<char>,
    search_column: Option<Seq<char>>,
    filters: Seq<ColumnFilter>,
) -> bool {
    &&& cache.valid
    &&& cache.last_search_text@ == search
    &&& opt_view(cache.last_search_column) == search_column
    &&& cache.last_filter_hash == filters_hash(filters)
    &&& cache.last_row_count == result.rows@.len()
    &&& cache.filtered_indices@ == passing_indices(
        result,
        keys,
        search,
        search_column,
        filters,
        result.rows@.len() as int,
    )
}

fn same_column(a: &Option<String>, b: &Option<String>) -> (r: bool)
    ensures
        r == (opt_view(*a) == opt_view(*b)),
{
    match (a, b) {
        (Some(x), Some(y)) => str_eq(x.as_str(), y.as_str()),
        (None, None) => true,
        _ => false,
    }
}

fn clone_column(a: &Option<String>) -> (r: Option<String>)
    ensures
        opt_view(r) == opt_view(*a),
{
    match a {
        Some(x) => Some(String::from_str(x.as_str())),
        None => None,
    }
}

/// Filters rows, answering from the cache when the search text, searched
/// column, filter hash and row count are those of the last filtering; otherwise
/// filters afresh and records the new answer.
pub fn filter_rows_cached<'a>(
    result: &'a QueryResult,
    keys: &NumericKeys,
    search_text: &str,
    search_column: &Option<String>,
    filters: &[ColumnFilter],
    cache: &mut FilterCache,
) -> (r: Vec<(usize, &'a Vec<String>)>)
    requires
        keys_fit(*keys, *result, filters@),
    ensures
        cache_hit(*old(cache), *result, search_text@, opt_view(*search_column), filters@) ==> {
            &&& pairs_are(
                r@,
                *result,
                cached_rows(old(cache).filtered_indices@, result.rows@.len()),
            )
            &&& *final(cache) == *old(cache)
        },
        !cache_hit(*old(cache), *result, search_text@, opt_view(*search_column), filters@) ==> {
            &&& pairs_are(
                r@,
                *result,
                passing_indices(
                    *result,
                    *keys,
                    search_text@,
                    opt_view(*search_column),
                    filters@,
                    result.rows@.len() as int,
                ),
            )
            &&& cache_filled(
                *final(cache),
                *result,
                *keys,
                search_text@,
                opt_view(*search_column),
                filters@,
            )
        },
{
    let filter_hash = compute_filter_hash(filters);
    let cache_valid = cache.valid && str_eq(cache.last_search_text.as_str(), search_text)
        && same_column(&cache.last_search_column, search_column) && cache.last_filter_hash
        == filter_hash && cache.last_row_count == result.rows.len();
    if cache_valid {
        let mut out: Vec<(usize, &'a Vec<String>)> = Vec::new();
        let ghost idx = cache.filtered_indices@;
        let mut k: usize = 0;
        while k < cache.filtered_indices.len()
            invariant
                idx == cache.filtered_indices@,
                k <= idx.len(),
                pairs_are(out@, *result, cached_rows(idx.take(k as int), result.rows@.len())),
            decreases idx.len() - k,
        {
            assert(idx.take(k + 1).drop_last() == idx.take(k as int));
            let i = cache.filtered_indices[k];
            if i < result.rows.len() {
                out.push((i, &result.rows[i]));
            }
            k = k + 1;
        }
        assert(idx.take(idx.len() as int) == idx);
        return out;
    }
    let filtered = filter_rows_internal(result, keys, search_text, search_column, filters);
    let mut indices: Vec<usize> = Vec::new();
    let mut k: usize = 0;
    while k < filtered.len()
        invariant
            k <= filtered@.len(),
            indices@.len() == k,
            forall|j: int| 0 <= j < k ==> indices@[j] == (#[trigger] filtered@[j]).0,
        decreases filtered.len() - k,
    {
        indices.push(filtered[k].0);
        k = k + 1;
    }
    assert forall|j: int| 0 <= j < indices@.len() implies indices@[j] == passing_indices(
        *result,
        *keys,
        search_text@,
        opt_view(*search_column),
        filters@,
        result.rows@.len() as int,
    )[j] by {
        assert(filtered@[j].0 == indices@[j]);
    }
    cache.filtered_indices = indices;
    cache.last_search_text = String::from_str(search_text);
    cache.last_search_column = clone_column(search_column);
    cache.last_filter_hash = filter_hash;
    cache.last_row_count = result.rows.len();
    cache.valid = true;
    assert(cache.filtered_indices@ =~= passing_indices(
        *result,
        *keys,
        search_text@,
        opt_view(*search_column),
        filters@,
        result.rows@.len() as int,
    ));
    filtered
}

/// The cached rows are exactly the cached indices when every index names a row.
pub proof fn lemma_cached_rows_in_range(idx: Seq<usize>, n: nat)
    requires
        forall|k: int| 0 <= k < idx.len() ==> (#[trigger] idx[k] as int) < n,
    ensures
        cached_rows(idx, n) == idx,
    decreases idx.len(),
{
    if idx.len() > 0 {
        lemma_cached_rows_in_range(idx.drop_last(), n);
        assert(idx.drop_last().push(idx.last()) == idx);
    }
}

pub proof fn lemma_passing_indices_in_range(
    result: QueryResult,
    keys: NumericKeys,
    search: Seq<char>,
    search_column: Option<Seq<char>>,
    filters: Seq<ColumnFilter>,
    n: int,
)
    ensures
        forall|k: int|
            0 <= k < passing_indices(result, keys, search, search_column, filters, n).len() ==> (
            #[trigger] passing_indices(result, keys, search, search_column, filters, n)[k] as int)
                < n,
    decreases n,
{
    if n > 0 {
        lemma_passing_indices_in_range(result, keys, search, search_column, filters, n - 1);
        let rest = passing_indices(result, keys, search, search_column, filters, n - 1);
        let all = passing_indices(result, keys, search, search_column, filters, n);
        assert forall|k: int| 0 <= k < all.len() implies (#[trigger] all[k] as int) < n by {
            if k < rest.len() {
                assert(all[k] == rest[k]);
            }
        }
    }
}

/// The cache never changes what is shown: for an empty cache, or one that a
/// filtering of the same result filled, whatever search and conditions come
/// next, a cache hit answers exactly the rows a fresh filtering gives (a miss
/// filters afresh). The one exception, left out here, is a new condition
/// list that differs from the cached one but hashes alike.
pub proof fn lemma_cache_is_transparent(
    cache: FilterCache,
    result: QueryResult,
    keys: NumericKeys,
    filled_search: Seq<char>,
    filled_column: Option<Seq<char>>,
    filled_filters: Seq<ColumnFilter>,
    search: Seq<char>,
    search_column: Option<Seq<char>>,
    filters: Seq<ColumnFilter>,
)
    requires
        cache.valid ==> cache_filled(
            cache,
            result,
            keys,
            filled_search,
            filled_column,
            filled_filters,
        ),
        cache.valid && filters_hash(filters) == filters_hash(filled_filters) ==> filters
            == filled_filters,
    ensures
        cache_hit(cache, result, search, search_column, filters) ==> cached_rows(
            cache.filtered_indices@,
            result.rows@.len(),
        ) == passing_indices(
            result,
            keys,
            search,
            search_column,
            filters,
            result.rows@.len() as int,
        ),
{
    if cache_hit(cache, result, search, search_column, filters) {
        assert(search == filled_search);
        assert(filters == filled_filters);
        lemma_repeat_is_cache_hit(cache, result, keys, search, search_column, filters);
    }
}

/// The cache is transparent: once a filtering has filled the cache, repeating
/// it with the same result, search and conditions is answered from the cache
/// with exactly the rows a fresh filtering gives.
pub proof fn lemma_repeat_is_cache_hit(
    cache: FilterCache,
    result: QueryResult,
    keys: NumericKeys,
    search: Seq<char>,
    search_column: Option<Seq<char>>,
    filters: Seq<ColumnFilter>,
)
    requires
        cache_filled(cache, result, keys, search, search_column, filters),
    ensures
        cache_hit(cache, result, search, search_column, filters),
        cached_rows(cache.filtered_indices@, result.rows@.len()) == passing_indices(
            result,
            keys,
            search,
            search_column,
            filters,
            result.rows@.len() as int,
        ),
{
    lemma_passing_indices_in_range(
        result,
        keys,
        search,
        search_column,
        filters,
        result.rows@.len() as int,
    );
    lemma_cached_rows_in_range(cache.filtered_indices@, result.rows@.len());
}

} // verus!
