//! The one-line quick-filter syntax: `column operator value [value2]`.
use vstd::prelude::*;
use crate::text::{
    chars_eq, chars_of, concat2, join, split_whitespace, starts_with, starts_with_exec, str_eq,
    str_to_lowercase, str_to_uppercase, string_from_chars, to_lowercase, to_uppercase, trim,
    trim_chars, views, words,
};
use super::condition::ColumnFilter;
use super::logic::FilterLogic;
use super::operators::FilterOperator;
use crate::ui::input::{Key, KeyInput};

verus! {

/// State of the quick-filter prompt.
pub struct QuickFilterState {
    pub show: bool,
    pub input: String,
}

impl Default for QuickFilterState {
    fn default() -> (r: Self)
        ensures
            !r.show,
            r.input@.len() == 0,
    {
        QuickFilterState { show: false, input: String::new() }
    }
}

/// The operator a token names (compared in upper case).
pub open spec fn operator_for(t: Seq<char>) -> Option<FilterOperator> {
    if t == "~"@ {
        Some(FilterOperator::Contains)
    } else if t == "!~"@ {
        Some(FilterOperator::NotContains)
    } else if t == "="@ || t == "=="@ {
        Some(FilterOperator::Equals)
    } else if t == "!="@ || t == "<>"@ {
        Some(FilterOperator::NotEquals)
    } else if t == "^"@ {
        Some(FilterOperator::StartsWith)
    } else if t == "$"@ {
        Some(FilterOperator::EndsWith)
    } else if t == ">"@ {
        Some(FilterOperator::GreaterThan)
    } else if t == ">="@ {
        Some(FilterOperator::GreaterOrEqual)
    } else if t == "<"@ {
        Some(FilterOperator::LessThan)
    } else if t == "<="@ {
        Some(FilterOperator::LessOrEqual)
    } else if t == "[]"@ || t == "BETWEEN"@ {
        Some(FilterOperator::Between)
    } else if t == "![]"@ || t == "!BETWEEN"@ {
        Some(FilterOperator::NotBetween)
    } else if t == "IN"@ {
        Some(FilterOperator::In)
    } else if t == "!IN"@ || t == "NOTIN"@ {
        Some(FilterOperator::NotIn)
    } else if t == "NULL"@ || t == "ISNULL"@ {
        Some(FilterOperator::IsNull)
    } else if t == "!NULL"@ || t == "NOTNULL"@ {
        Some(FilterOperator::IsNotNull)
    } else if t == "EMPTY"@ || t == "''"@ {
        Some(FilterOperator::IsEmpty)
    } else if t == "!EMPTY"@ || t == "!''"@ {
        Some(FilterOperator::IsNotEmpty)
    } else if t == "REGEX"@ || t == "/./"@ {
        Some(FilterOperator::Regex)
    } else {
        None
    }
}

fn is(t: &str, lit: &str) -> (r: bool)
    ensures
        r == (t@ == lit@),
{
    str_eq(t, lit)
}

/// Reads an operator token; the value follows at word index 2.
pub fn parse_operator(op_str: &str) -> (r: Result<(FilterOperator, usize), &'static str>)
    ensures
        match operator_for(str_to_uppercase(op_str@)) {
            Some(op) => r == Ok::<(FilterOperator, usize), &'static str>((op, 2usize)),
            None => r matches Err(e) && e@ == "未知的操作符"@,
        },
{
    let up = to_uppercase(op_str);
    let t = up.as_str();
    let op = if is(t, "~") {
        FilterOperator::Contains
    } else if is(t, "!~") {
        FilterOperator::NotContains
    } else if is(t, "=") || is(t, "==") {
        FilterOperator::Equals
    } else if is(t, "!=") || is(t, "<>") {
        FilterOperator::NotEquals
    } else if is(t, "^") {
        FilterOperator::StartsWith
    } else if is(t, "$") {
        FilterOperator::EndsWith
    } else if is(t, ">") {
        FilterOperator::GreaterThan
    } else if is(t, ">=") {
        FilterOperator::GreaterOrEqual
    } else if is(t, "<") {
        FilterOperator::LessThan
    } else if is(t, "<=") {
        FilterOperator::LessOrEqual
    } else if is(t, "[]") || is(t, "BETWEEN") {
        FilterOperator::Between
    } else if is(t, "![]") || is(t, "!BETWEEN") {
        FilterOperator::NotBetween
    } else if is(t, "IN") {
        FilterOperator::In
    } else if is(t, "!IN") || is(t, "NOTIN") {
        FilterOperator::NotIn
    } else if is(t, "NULL") || is(t, "ISNULL") {
        FilterOperator::IsNull
    } else if is(t, "!NULL") || is(t, "NOTNULL") {
        FilterOperator::IsNotNull
    } else if is(t, "EMPTY") || is(t, "''") {
        FilterOperator::IsEmpty
    } else if is(t, "!EMPTY") || is(t, "!''") {
        FilterOperator::IsNotEmpty
    } else if is(t, "REGEX") || is(t, "/./") {
        FilterOperator::Regex
    } else {
        return Err("未知的操作符");
    };
    Ok((op, 2))
}

/// The first column at or after `i` equal to `w` once both are lower-cased (or the count).
pub open spec fn column_equal_from(cols: Seq<Seq<char>>, w: Seq<char>, i: int) -> int
    decreases cols.len() - i,
{
    if i >= cols.len() {
        cols.len() as int
    } else if str_to_lowercase(cols[i]) == str_to_lowercase(w) {
        i
    } else {
        column_equal_from(cols, w, i + 1)
    }
}

/// The first column at or after `i` that starts with `w` once both are lower-cased (or the count).
pub open spec fn column_prefix_from(cols: Seq<Seq<char>>, w: Seq<char>, i: int) -> int
    decreases cols.len() - i,
{
    if i >= cols.len() {
        cols.len() as int
    } else if starts_with(str_to_lowercase(cols[i]), str_to_lowercase(w)) {
        i
    } else {
        column_prefix_from(cols, w, i + 1)
    }
}

/// The column a word designates: an exact match ignoring case, else the first prefix match.
pub open spec fn matched_column(cols: Seq<Seq<char>>, w: Seq<char>) -> Option<int> {
    if column_equal_from(cols, w, 0) < cols.len() {
        Some(column_equal_from(cols, w, 0))
    } else if column_prefix_from(cols, w, 0) < cols.len() {
        Some(column_prefix_from(cols, w, 0))
    } else {
        None
    }
}

/// What a quick filter reads: column, operator, value and second value, or the hint shown.
pub open spec fn quick_filter(input: Seq<char>, cols: Seq<Seq<char>>) -> Result<
    (Seq<char>, FilterOperator, Seq<char>, Seq<char>),
    Seq<char>,
> {
    let t = trim(input);
    let parts = words(t);
    if t.len() == 0 || parts.len() == 0 {
        Err("输入筛选条件..."@)
    } else {
        match matched_column(cols, parts[0]) {
            None => if cols.len() == 0 {
                Err("没有可用的列"@)
            } else {
                Err("未找到匹配的列名"@)
            },
            Some(ci) => if parts.len() < 2 {
                Err("请输入操作符"@)
            } else {
                match operator_for(str_to_uppercase(parts[1])) {
                    None => Err("未知的操作符"@),
                    Some(op) => if !op.spec_needs_value() {
                        Ok((cols[ci], op, seq![], seq![]))
                    } else if parts.len() <= 2 {
                        Err("请输入筛选值"@)
                    } else {
                        let value = if op is In || op is NotIn {
                            join(parts.skip(2), " "@)
                        } else {
                            parts[2]
                        };
                        if op.spec_needs_second_value() {
                            if parts.len() > 3 {
                                Ok((cols[ci], op, value, parts[3]))
                            } else {
                                Err("BETWEEN 需要两个值"@)
                            }
                        } else {
                            Ok((cols[ci], op, value, seq![]))
                        }
                    },
                }
            },
        }
    }
}

/// IN and NOT IN read the whole rest of the line as their list: once the
/// column matches and the operator word names IN or NOT IN, a line of at
/// least three words parses to that column and operator with the value made
/// of every word after the operator, joined by single spaces, and no second
/// value; `c IN a, b` gives the value `a, b`.
pub proof fn lemma_list_operators_take_the_rest(input: Seq<char>, cols: Seq<Seq<char>>)
    ensures
        ({
            let w = words(trim(input));
            w.len() >= 3 ==> match (matched_column(cols, w[0]), operator_for(
                str_to_uppercase(w[1]),
            )) {
                (Some(ci), Some(op)) => (op == FilterOperator::In || op == FilterOperator::NotIn)
                    ==> quick_filter(input, cols) == Ok::<
                    (Seq<char>, FilterOperator, Seq<char>, Seq<char>),
                    Seq<char>,
                >((cols[ci], op, join(w.skip(2), " "@), seq![])),
                _ => true,
            }
        }),
{
}

/// The other operators that take a value read single words: BETWEEN and
/// NOT BETWEEN the third and fourth words (a missing fourth is an error),
/// every other one the third word alone; the operators that take no value
/// need no third word.
pub proof fn lemma_value_operators_take_words(input: Seq<char>, cols: Seq<Seq<char>>)
    ensures
        ({
            let w = words(trim(input));
            w.len() >= 2 ==> match (matched_column(cols, w[0]), operator_for(
                str_to_uppercase(w[1]),
            )) {
                (Some(ci), Some(op)) => {
                    &&& (op == FilterOperator::Between || op == FilterOperator::NotBetween) ==> {
                        &&& w.len() >= 4 ==> quick_filter(input, cols) == Ok::<
                            (Seq<char>, FilterOperator, Seq<char>, Seq<char>),
                            Seq<char>,
                        >((cols[ci], op, w[2], w[3]))
                        &&& w.len() == 3 ==> quick_filter(input, cols) == Err::<
                            (Seq<char>, FilterOperator, Seq<char>, Seq<char>),
                            Seq<char>,
                        >("BETWEEN 需要两个值"@)
                    }
                    &&& (op.spec_needs_value() && !op.spec_needs_second_value() && op
                        != FilterOperator::In && op != FilterOperator::NotIn && w.len() >= 3)
                        ==> quick_filter(input, cols) == Ok::<
                        (Seq<char>, FilterOperator, Seq<char>, Seq<char>),
                        Seq<char>,
                    >((cols[ci], op, w[2], seq![]))
                    &&& !op.spec_needs_value() ==> quick_filter(input, cols) == Ok::<
                        (Seq<char>, FilterOperator, Seq<char>, Seq<char>),
                        Seq<char>,
                    >((cols[ci], op, seq![], seq![]))
                },
                _ => true,
            }
        }),
{
}

proof fn lemma_column_equal_from(cols: Seq<Seq<char>>, w: Seq<char>, i: int)
    requires
        0 <= i <= cols.len(),
    ensures
        i <= column_equal_from(cols, w, i) <= cols.len(),
        column_equal_from(cols, w, i) < cols.len() ==> str_to_lowercase(
            cols[column_equal_from(cols, w, i)],
        ) == str_to_lowercase(w),
        column_equal_from(cols, w, i) == cols.len() ==> forall|k: int|
            i <= k < cols.len() ==> str_to_lowercase(#[trigger] cols[k]) != str_to_lowercase(w),
    decreases cols.len() - i,
{
    if i < cols.len() {
        lemma_column_equal_from(cols, w, i + 1);
    }
}

proof fn lemma_column_prefix_from(cols: Seq<Seq<char>>, w: Seq<char>, i: int)
    requires
        0 <= i <= cols.len(),
    ensures
        i <= column_prefix_from(cols, w, i) <= cols.len(),
        column_prefix_from(cols, w, i) < cols.len() ==> starts_with(
            str_to_lowercase(cols[column_prefix_from(cols, w, i)]),
            str_to_lowercase(w),
        ),
        column_prefix_from(cols, w, i) == cols.len() ==> forall|k: int|
            i <= k < cols.len() ==> !starts_with(str_to_lowercase(#[trigger] cols[k]), str_to_lowercase(w)),
    decreases cols.len() - i,
{
    if i < cols.len() {
        lemma_column_prefix_from(cols, w, i + 1);
    }
}

/// The column a quick filter names is one of the available columns that
/// equals the first word once both are lower-cased when any column does,
/// else one whose lower-cased name starts with the lower-cased word; when no
/// column even starts with it the line is refused.
pub proof fn lemma_quick_filter_column(input: Seq<char>, cols: Seq<Seq<char>>)
    ensures
        ({
            let w = words(trim(input));
            w.len() > 0 ==> {
                &&& quick_filter(input, cols) matches Ok((col, _, _, _)) ==> {
                    &&& cols.contains(col)
                    &&& (exists|k: int| 0 <= k < cols.len() && str_to_lowercase(#[trigger] cols[k])
                        == str_to_lowercase(w[0])) ==> str_to_lowercase(col) == str_to_lowercase(w[0])
                    &&& str_to_lowercase(col) == str_to_lowercase(w[0]) || starts_with(
                        str_to_lowercase(col),
                        str_to_lowercase(w[0]),
                    )
                }
                &&& (forall|k: int|
                    0 <= k < cols.len() ==> !starts_with(
                        str_to_lowercase(#[trigger] cols[k]),
                        str_to_lowercase(w[0]),
                    ) && str_to_lowercase(cols[k]) != str_to_lowercase(w[0])) ==> quick_filter(
                    input,
                    cols,
                ) is Err
            }
        }),
{
    let w = words(trim(input));
    if w.len() > 0 {
        lemma_column_equal_from(cols, w[0], 0);
        lemma_column_prefix_from(cols, w[0], 0);
        if let Ok((col, _, _, _)) = quick_filter(input, cols) {
            let ci = matched_column(cols, w[0])->Some_0;
            assert(col == cols[ci]);
            assert(cols.contains(col));
        }
    }
}

fn find_column(columns: &[String], w: &str) -> (r: Option<usize>)
    ensures
        match r {
            Some(i) => matched_column(views(columns@), w@) == Some(i as int),
            None => matched_column(views(columns@), w@) is None,
        },
{
    let ghost cols = views(columns@);
    let wl = to_lowercase(w);
    let wl_v = chars_of(wl.as_str());
    let mut i: usize = 0;
    while i < columns.len()
        invariant
            cols == views(columns@),
            wl_v@ == str_to_lowercase(w@),
            i <= columns.len(),
            column_equal_from(cols, w@, 0) == column_equal_from(cols, w@, i as int),
        decreases columns.len() - i,
    {
        let cl = to_lowercase(columns[i].as_str());
        let cl_v = chars_of(cl.as_str());
        if chars_eq(&cl_v, &wl_v) {
            return Some(i);
        }
        i = i + 1;
    }
    let mut j: usize = 0;
    while j < columns.len()
        invariant
            cols == views(columns@),
            wl_v@ == str_to_lowercase(w@),
            column_equal_from(cols, w@, 0) == cols.len(),
            j <= columns.len(),
            column_prefix_from(cols, w@, 0) == column_prefix_from(cols, w@, j as int),
        decreases columns.len() - j,
    {
        let cl = to_lowercase(columns[j].as_str());
        let cl_v = chars_of(cl.as_str());
        if starts_with_exec(&cl_v, &wl_v) {
            return Some(j);
        }
        j = j + 1;
    }
    None
}

/// The view of a parse result.
pub open spec fn parsed_view(r: Result<ColumnFilter, &'static str>) -> Result<
    (Seq<char>, FilterOperator, Seq<char>, Seq<char>),
    Seq<char>,
> {
    match r {
        Ok(f) => Ok((f.column@, f.operator, f.value@, f.value2@)),
        Err(e) => Err(e@),
    }
}

/// Parses `column operator value [value2]` against the available columns.
///
/// The column may be written in any case or abbreviated to a prefix; IN and
/// NOT IN take the rest of the line as their list; BETWEEN takes two values.
/// A parsed filter is enabled, case-insensitive and joined with AND.
pub fn parse_quick_filter(input: &str, columns: &[String]) -> (r: Result<ColumnFilter, &'static str>)
    ensures
        parsed_view(r) == quick_filter(input@, views(columns@)),
        r matches Ok(f) ==> f.enabled && !f.case_sensitive && f.logic == FilterLogic::And,
{
    let iv = chars_of(input);
    let t = trim_chars(&iv);
    if t.len() == 0 {
        return Err("输入筛选条件...");
    }
    let parts = split_whitespace(&t);
    let ghost pv = parts@.map_values(|w: Vec<char>| w@);
    assert(pv == words(trim(input@)));
    if parts.len() == 0 {
        return Err("输入筛选条件...");
    }
    let col_input = string_from_chars(&parts[0]);
    assert(pv[0] == parts@[0]@);
    let ci = match find_column(columns, col_input.as_str()) {
        Some(i) => i,
        None => {
            if columns.len() == 0 {
                return Err("没有可用的列");
            }
            return Err("未找到匹配的列名");
        },
    };
    let column = String::from_str(columns[ci].as_str());
    if parts.len() < 2 {
        return Err("请输入操作符");
    }
    let op_s = string_from_chars(&parts[1]);
    assert(pv[1] == parts@[1]@);
    let (operator, value_start_idx) = parse_operator(op_s.as_str())?;
    if !operator.needs_value() {
        return Ok(
            ColumnFilter {
                column,
                operator,
                value: String::new(),
                value2: String::new(),
                enabled: true,
                case_sensitive: false,
                logic: FilterLogic::And,
            },
        );
    }
    if parts.len() <= value_start_idx {
        return Err("请输入筛选值");
    }
    let value = if operator == FilterOperator::In || operator == FilterOperator::NotIn {
        let mut rest: Vec<String> = Vec::new();
        let mut k: usize = 2;
        while k < parts.len()
            invariant
                2 <= k <= parts@.len(),
                pv == parts@.map_values(|w: Vec<char>| w@),
                rest@.len() == k - 2,
                forall|j: int| 0 <= j < k - 2 ==> (#[trigger] rest@[j])@ == pv[j + 2],
            decreases parts.len() - k,
        {
            rest.push(string_from_chars(&parts[k]));
            k = k + 1;
        }
        assert(views(rest@) =~= pv.skip(2));
        crate::text::join_strings(&rest, " ")
    } else {
        assert(pv[2] == parts@[2]@);
        string_from_chars(&parts[2])
    };
    let value2 = if operator.needs_second_value() {
        if parts.len() > 3 {
            assert(pv[3] == parts@[3]@);
            string_from_chars(&parts[3])
        } else {
            return Err("BETWEEN 需要两个值");
        }
    } else {
        String::new()
    };
    Ok(
        ColumnFilter {
            column,
            operator,
            value,
            value2,
            enabled: true,
            case_sensitive: false,
            logic: FilterLogic::And,
        },
    )
}

impl QuickFilterState {
    /// One frame of keys in the open quick-filter prompt over `columns`:
    /// Enter takes the condition when the text parses (see `quick_filter`)
    /// and closes the prompt; Escape closes it; a closing prompt forgets its
    /// text. Returns the condition taken.
    pub fn handle_keys(&mut self, input: &KeyInput, columns: &[String]) -> (r: Option<ColumnFilter>)
        ensures
            ({
                let parsed = quick_filter(old(self).input@, views(columns@));
                let take = input.has(Key::Enter) && parsed is Ok;
                let close = take || input.has(Key::Escape);
                &&& take ==> (r matches Some(f) && parsed == Ok::<_, Seq<char>>((f.column@, f.operator, f.value@, f.value2@)) && f.enabled && !f.case_sensitive)
                &&& !take ==> r is None
                &&& close ==> !final(self).show && final(self).input@.len() == 0
                &&& !close ==> final(self).show == old(self).show && final(self).input@ == old(self).input@
            }),
    {
        let parsed = parse_quick_filter(self.input.as_str(), columns);
        let mut result: Option<ColumnFilter> = None;
        let mut close = false;
        if input.key_pressed(Key::Enter) {
            if let Ok(f) = parsed {
                result = Some(f);
                close = true;
            }
        }
        if input.key_pressed(Key::Escape) {
            close = true;
        }
        if close {
            self.show = false;
            self.input = String::new();
        }
        result
    }

    /// A column hint clicked (shown while the text is empty): the text becomes
    /// the column and `~ `, ready for a CONTAINS value.
    pub fn pick_column(&mut self, column: &str)
        ensures
            final(self).input@ == column@ + " ~ "@,
            final(self).show == old(self).show,
    {
        self.input = concat2(column, " ~ ");
    }
}

} // verus!
