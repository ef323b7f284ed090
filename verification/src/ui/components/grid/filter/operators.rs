//! Filter operators and the test of one cell against one condition.
use vstd::prelude::*;
use crate::text::{
    chars_of, chars_eq, concat2, contains_exec, contains_sub, ends_with, ends_with_exec,
    lemma_utf8_len, starts_with, starts_with_exec, str_eq, str_to_lowercase, to_lowercase, trim,
    trim_chars, utf8_len_exceeds,
};

verus! {

/// A comparison between a cell and the filter value(s).
#[derive(Clone, Copy, Debug, PartialEq, Eq, Structural)]
pub enum FilterOperator {
    Contains,
    NotContains,
    Equals,
    NotEquals,
    StartsWith,
    EndsWith,
    GreaterThan,
    GreaterOrEqual,
    LessThan,
    LessOrEqual,
    Between,
    NotBetween,
    In,
    NotIn,
    IsNull,
    IsNotNull,
    IsEmpty,
    IsNotEmpty,
    Regex,
}

impl Default for FilterOperator {
    fn default() -> (r: Self)
        ensures
            r == FilterOperator::Contains,
    {
        FilterOperator::Contains
    }
}

/// The operators in the order of `FilterOperator::all`.
pub open spec fn operator_order() -> Seq<FilterOperator> {
    seq![
        FilterOperator::Contains,
        FilterOperator::NotContains,
        FilterOperator::Equals,
        FilterOperator::NotEquals,
        FilterOperator::StartsWith,
        FilterOperator::EndsWith,
        FilterOperator::GreaterThan,
        FilterOperator::GreaterOrEqual,
        FilterOperator::LessThan,
        FilterOperator::LessOrEqual,
        FilterOperator::Between,
        FilterOperator::NotBetween,
        FilterOperator::In,
        FilterOperator::NotIn,
        FilterOperator::IsNull,
        FilterOperator::IsNotNull,
        FilterOperator::IsEmpty,
        FilterOperator::IsNotEmpty,
        FilterOperator::Regex,
    ]
}

/// The Chinese label of an operator, shown in menus.
pub open spec fn display_label(op: FilterOperator) -> Seq<char> {
    match op {
        FilterOperator::Contains => "包含"@,
        FilterOperator::NotContains => "不包含"@,
        FilterOperator::Equals => "等于"@,
        FilterOperator::NotEquals => "不等于"@,
        FilterOperator::StartsWith => "开头是"@,
        FilterOperator::EndsWith => "结尾是"@,
        FilterOperator::GreaterThan => "大于"@,
        FilterOperator::GreaterOrEqual => "大于等于"@,
        FilterOperator::LessThan => "小于"@,
        FilterOperator::LessOrEqual => "小于等于"@,
        FilterOperator::Between => "介于"@,
        FilterOperator::NotBetween => "不介于"@,
        FilterOperator::In => "在列表中"@,
        FilterOperator::NotIn => "不在列表中"@,
        FilterOperator::IsNull => "为 NULL"@,
        FilterOperator::IsNotNull => "不为 NULL"@,
        FilterOperator::IsEmpty => "为空字符串"@,
        FilterOperator::IsNotEmpty => "非空字符串"@,
        FilterOperator::Regex => "正则匹配"@,
    }
}

/// The operator whose label is `s`, told apart by the label's length and
/// its first two characters.
spec fn operator_of_label(s: Seq<char>) -> FilterOperator {
    if s.len() == 2 {
        if s[0] == '包' {
            FilterOperator::Contains
        } else if s[0] == '等' {
            FilterOperator::Equals
        } else if s[0] == '大' {
            FilterOperator::GreaterThan
        } else if s[0] == '小' {
            FilterOperator::LessThan
        } else {
            FilterOperator::Between
        }
    } else if s.len() == 3 {
        if s[0] == '开' {
            FilterOperator::StartsWith
        } else if s[0] == '结' {
            FilterOperator::EndsWith
        } else if s[1] == '包' {
            FilterOperator::NotContains
        } else if s[1] == '等' {
            FilterOperator::NotEquals
        } else {
            FilterOperator::NotBetween
        }
    } else if s.len() == 4 {
        if s[0] == '大' {
            FilterOperator::GreaterOrEqual
        } else if s[0] == '小' {
            FilterOperator::LessOrEqual
        } else if s[0] == '在' {
            FilterOperator::In
        } else {
            FilterOperator::Regex
        }
    } else if s.len() == 5 {
        if s[0] == '不' {
            FilterOperator::NotIn
        } else if s[0] == '为' {
            FilterOperator::IsEmpty
        } else {
            FilterOperator::IsNotEmpty
        }
    } else if s.len() == 6 {
        FilterOperator::IsNull
    } else {
        FilterOperator::IsNotNull
    }
}

/// Every operator has a label, and no two operators share one.
pub proof fn lemma_display_labels_distinct(a: FilterOperator, b: FilterOperator)
    ensures
        display_label(a).len() > 0,
        a != b ==> display_label(a) != display_label(b),
{
    reveal_strlit("包含");
    reveal_strlit("不包含");
    reveal_strlit("等于");
    reveal_strlit("不等于");
    reveal_strlit("开头是");
    reveal_strlit("结尾是");
    reveal_strlit("大于");
    reveal_strlit("大于等于");
    reveal_strlit("小于");
    reveal_strlit("小于等于");
    reveal_strlit("介于");
    reveal_strlit("不介于");
    reveal_strlit("在列表中");
    reveal_strlit("不在列表中");
    reveal_strlit("为 NULL");
    reveal_strlit("不为 NULL");
    reveal_strlit("为空字符串");
    reveal_strlit("非空字符串");
    reveal_strlit("正则匹配");
    assert(operator_of_label(display_label(a)) == a);
    assert(operator_of_label(display_label(b)) == b);
}

impl FilterOperator {
    /// Whether the operator reads a value.
    pub open spec fn spec_needs_value(self) -> bool {
        !(self is IsNull || self is IsNotNull || self is IsEmpty || self is IsNotEmpty)
    }

    /// Whether the operator reads a second value.
    pub open spec fn spec_needs_second_value(self) -> bool {
        self is Between || self is NotBetween
    }

    /// The Chinese label shown in menus.
    pub fn display_name(&self) -> (r: &'static str)
        ensures
            r@ == display_label(*self),
    {
        match self {
            FilterOperator::Contains => "包含",
            FilterOperator::NotContains => "不包含",
            FilterOperator::Equals => "等于",
            FilterOperator::NotEquals => "不等于",
            FilterOperator::StartsWith => "开头是",
            FilterOperator::EndsWith => "结尾是",
            FilterOperator::GreaterThan => "大于",
            FilterOperator::GreaterOrEqual => "大于等于",
            FilterOperator::LessThan => "小于",
            FilterOperator::LessOrEqual => "小于等于",
            FilterOperator::Between => "介于",
            FilterOperator::NotBetween => "不介于",
            FilterOperator::In => "在列表中",
            FilterOperator::NotIn => "不在列表中",
            FilterOperator::IsNull => "为 NULL",
            FilterOperator::IsNotNull => "不为 NULL",
            FilterOperator::IsEmpty => "为空字符串",
            FilterOperator::IsNotEmpty => "非空字符串",
            FilterOperator::Regex => "正则匹配",
        }
    }

    /// The compact symbol of the operator.
    pub fn symbol(&self) -> (r: &'static str)
        ensures
            r@ == (match *self {
                FilterOperator::Contains => "~"@,
                FilterOperator::NotContains => "!~"@,
                FilterOperator::Equals => "="@,
                FilterOperator::NotEquals => "!="@,
                FilterOperator::StartsWith => "^..."@,
                FilterOperator::EndsWith => "...$"@,
                FilterOperator::GreaterThan => ">"@,
                FilterOperator::GreaterOrEqual => ">="@,
                FilterOperator::LessThan => "<"@,
                FilterOperator::LessOrEqual => "<="@,
                FilterOperator::Between => "[a,b]"@,
                FilterOperator::NotBetween => "![a,b]"@,
                FilterOperator::In => "IN"@,
                FilterOperator::NotIn => "NOT IN"@,
                FilterOperator::IsNull => "NULL"@,
                FilterOperator::IsNotNull => "!NULL"@,
                FilterOperator::IsEmpty => "''"@,
                FilterOperator::IsNotEmpty => "!''"@,
                FilterOperator::Regex => "/.*/"@,
            }),
    {
        match self {
            FilterOperator::Contains => "~",
            FilterOperator::NotContains => "!~",
            FilterOperator::Equals => "=",
            FilterOperator::NotEquals => "!=",
            FilterOperator::StartsWith => "^...",
            FilterOperator::EndsWith => "...$",
            FilterOperator::GreaterThan => ">",
            FilterOperator::GreaterOrEqual => ">=",
            FilterOperator::LessThan => "<",
            FilterOperator::LessOrEqual => "<=",
            FilterOperator::Between => "[a,b]",
            FilterOperator::NotBetween => "![a,b]",
            FilterOperator::In => "IN",
            FilterOperator::NotIn => "NOT IN",
            FilterOperator::IsNull => "NULL",
            FilterOperator::IsNotNull => "!NULL",
            FilterOperator::IsEmpty => "''",
            FilterOperator::IsNotEmpty => "!''",
            FilterOperator::Regex => "/.*/",
        }
    }

    /// All operators but the four null/empty tests read a value.
    pub fn needs_value(&self) -> (r: bool)
        ensures
            r == self.spec_needs_value(),
    {
        !matches!(
            self,
            FilterOperator::IsNull | FilterOperator::IsNotNull | FilterOperator::IsEmpty
                | FilterOperator::IsNotEmpty
        )
    }

    /// BETWEEN and NOT BETWEEN read a second value.
    pub fn needs_second_value(&self) -> (r: bool)
        ensures
            r == self.spec_needs_second_value(),
    {
        matches!(self, FilterOperator::Between | FilterOperator::NotBetween)
    }

    /// The placeholder of the value input.
    pub fn value_hint(&self) -> (r: &'static str)
        ensures
            r@ == (match *self {
                FilterOperator::In | FilterOperator::NotIn => "值1, 值2, ..."@,
                FilterOperator::Between | FilterOperator::NotBetween => "最小值"@,
                FilterOperator::Regex => "正则表达式"@,
                _ => "值..."@,
            }),
    {
        match self {
            FilterOperator::In | FilterOperator::NotIn => "值1, 值2, ...",
            FilterOperator::Between | FilterOperator::NotBetween => "最小值",
            FilterOperator::Regex => "正则表达式",
            _ => "值...",
        }
    }

    /// The text operators.
    pub fn text_operators() -> (r: Vec<FilterOperator>)
        ensures
            r@ == operator_order().subrange(0, 6),
    {
        let r = vec![
            FilterOperator::Contains,
            FilterOperator::NotContains,
            FilterOperator::Equals,
            FilterOperator::NotEquals,
            FilterOperator::StartsWith,
            FilterOperator::EndsWith,
        ];
        assert(r@ =~= operator_order().subrange(0, 6));
        r
    }

    /// The comparison operators.
    pub fn comparison_operators() -> (r: Vec<FilterOperator>)
        ensures
            r@ == operator_order().subrange(6, 12),
    {
        let r = vec![
            FilterOperator::GreaterThan,
            FilterOperator::GreaterOrEqual,
            FilterOperator::LessThan,
            FilterOperator::LessOrEqual,
            FilterOperator::Between,
            FilterOperator::NotBetween,
        ];
        assert(r@ =~= operator_order().subrange(6, 12));
        r
    }

    /// The list-membership operators.
    pub fn set_operators() -> (r: Vec<FilterOperator>)
        ensures
            r@ == operator_order().subrange(12, 14),
    {
        let r = vec![FilterOperator::In, FilterOperator::NotIn];
        assert(r@ =~= operator_order().subrange(12, 14));
        r
    }

    /// The null and empty tests.
    pub fn null_operators() -> (r: Vec<FilterOperator>)
        ensures
            r@ == operator_order().subrange(14, 18),
    {
        let r = vec![
            FilterOperator::IsNull,
            FilterOperator::IsNotNull,
            FilterOperator::IsEmpty,
            FilterOperator::IsNotEmpty,
        ];
        assert(r@ =~= operator_order().subrange(14, 18));
        r
    }

    /// Every operator: text, comparison, set, null groups, then the regex match.
    pub fn all() -> (r: Vec<FilterOperator>)
        ensures
            r@ == operator_order(),
    {
        let mut ops = FilterOperator::text_operators();
        let mut c = FilterOperator::comparison_operators();
        ops.append(&mut c);
        let mut s = FilterOperator::set_operators();
        ops.append(&mut s);
        let mut n = FilterOperator::null_operators();
        ops.append(&mut n);
        ops.push(FilterOperator::Regex);
        assert(ops@ =~= operator_order());
        ops
    }

    /// The text and list operators honour the case-sensitivity switch.
    pub fn supports_case_sensitivity(&self) -> (r: bool)
        ensures
            r == (self is Contains || self is NotContains || self is Equals || self is NotEquals
                || self is StartsWith || self is EndsWith || self is In || self is NotIn),
    {
        matches!(
            self,
            FilterOperator::Contains | FilterOperator::NotContains | FilterOperator::Equals
                | FilterOperator::NotEquals | FilterOperator::StartsWith | FilterOperator::EndsWith
                | FilterOperator::In | FilterOperator::NotIn
        )
    }
}

// ---------------------------------------------------------------------------
// Numbers
// ---------------------------------------------------------------------------

/// How a text reads as a number when parsed as `f64`.
///
/// `Num(k)` carries an integer that orders like the parsed number (the two
/// zeros share one key); `NaN` is a text that parses to NaN; `NotNumber` a
/// text that does not parse.  The keys are computed where the text is parsed.
#[derive(Clone, Copy, Debug, PartialEq, Eq, Structural)]
pub enum NumKey {
    NotNumber,
    NaN,
    Num(i64),
}

/// The comparison a numeric filter applies.
#[derive(Clone, Copy, Debug, PartialEq, Eq, Structural)]
pub enum Comparison {
    Greater,
    GreaterOrEqual,
    Less,
    LessOrEqual,
}

/// Lexicographic order of strings by code point (`str`'s `<`).
pub open spec fn text_less(a: Seq<char>, b: Seq<char>) -> bool
    decreases a.len(),
{
    if a.len() == 0 {
        b.len() > 0
    } else if b.len() == 0 {
        false
    } else if a[0] != b[0] {
        (a[0] as u32) < (b[0] as u32)
    } else {
        text_less(a.drop_first(), b.drop_first())
    }
}

/// Whether `a` sorts after `b` as text.
pub fn text_greater(a: &[char], b: &[char]) -> (r: bool)
    ensures
        r == text_less(b@, a@),
{
    let mut i: usize = 0;
    assert(a@.skip(0) == a@);
    assert(b@.skip(0) == b@);
    while i < a.len() && i < b.len() && a[i] == b[i]
        invariant
            i <= a.len(),
            i <= b.len(),
            text_less(b@, a@) == text_less(b@.skip(i as int), a@.skip(i as int)),
        decreases a.len() - i,
    {
        assert(b@.skip(i as int).drop_first() == b@.skip(i + 1));
        assert(a@.skip(i as int).drop_first() == a@.skip(i + 1));
        i = i + 1;
    }
    if i == b.len() {
        i < a.len()
    } else if i == a.len() {
        false
    } else {
        (b[i] as u32) < (a[i] as u32)
    }
}

/// The comparison applied to two texts in the order of `str`.
pub open spec fn text_compare(cell: Seq<char>, value: Seq<char>, cmp: Comparison) -> bool {
    match cmp {
        Comparison::Greater => text_less(value, cell),
        Comparison::GreaterOrEqual => !text_less(cell, value),
        Comparison::Less => text_less(cell, value),
        Comparison::LessOrEqual => !text_less(value, cell),
    }
}

/// `compare_values`: numbers compare as numbers (never true with NaN), and
/// when either side is not a number the texts compare by the same
/// comparison, in the order of `str`.
pub open spec fn compare_values(
    cell: Seq<char>,
    cell_key: NumKey,
    value: Seq<char>,
    value_key: NumKey,
    cmp: Comparison,
) -> bool {
    match (cell_key, value_key) {
        (NumKey::Num(a), NumKey::Num(b)) => match cmp {
            Comparison::Greater => a > b,
            Comparison::GreaterOrEqual => a >= b,
            Comparison::Less => a < b,
            Comparison::LessOrEqual => a <= b,
        },
        (NumKey::NotNumber, _) => text_compare(cell, value, cmp),
        (_, NumKey::NotNumber) => text_compare(cell, value, cmp),
        _ => false,
    }
}

fn text_compare_exec(cell: &[char], value: &[char], cmp: Comparison) -> (r: bool)
    ensures
        r == text_compare(cell@, value@, cmp),
{
    match cmp {
        Comparison::Greater => text_greater(cell, value),
        Comparison::GreaterOrEqual => !text_greater(value, cell),
        Comparison::Less => text_greater(value, cell),
        Comparison::LessOrEqual => !text_greater(cell, value),
    }
}

fn compare_values_exec(
    cell: &[char],
    cell_key: NumKey,
    value: &[char],
    value_key: NumKey,
    cmp: Comparison,
) -> (r: bool)
    ensures
        r == compare_values(cell@, cell_key, value@, value_key, cmp),
{
    match (cell_key, value_key) {
        (NumKey::Num(a), NumKey::Num(b)) => match cmp {
            Comparison::Greater => a > b,
            Comparison::GreaterOrEqual => a >= b,
            Comparison::Less => a < b,
            Comparison::LessOrEqual => a <= b,
        },
        (NumKey::NotNumber, _) => text_compare_exec(cell, value, cmp),
        (_, NumKey::NotNumber) => text_compare_exec(cell, value, cmp),
        _ => false,
    }
}

// ---------------------------------------------------------------------------
// Lists
// ---------------------------------------------------------------------------

/// The first index at or after `i` holding a comma (or the length).
pub open spec fn next_comma(s: Seq<char>, i: int) -> int
    decreases s.len() - i,
{
    if i >= s.len() {
        s.len() as int
    } else if s[i] == ',' {
        i
    } else {
        next_comma(s, i + 1)
    }
}

pub proof fn lemma_next_comma(s: Seq<char>, i: int)
    requires
        0 <= i <= s.len(),
    ensures
        i <= next_comma(s, i) <= s.len(),
        next_comma(s, i) < s.len() ==> s[next_comma(s, i)] == ',',
    decreases s.len() - i,
{
    if i < s.len() && s[i] != ',' {
        lemma_next_comma(s, i + 1);
    }
}

/// The pieces of `s` from index `i` on, between commas (`str::split(',')`).
pub open spec fn comma_pieces_from(s: Seq<char>, i: int) -> Seq<Seq<char>>
    decreases s.len() - i,
{
    if i < 0 || i > s.len() {
        seq![]
    } else {
        let e = next_comma(s, i);
        proof {
            lemma_next_comma(s, i);
        }
        if e >= s.len() {
            seq![s.subrange(i, s.len() as int)]
        } else {
            seq![s.subrange(i, e)] + comma_pieces_from(s, e + 1)
        }
    }
}

/// The trimmed comma-separated items of `value` (what `In` compares with).
pub open spec fn list_items(value: Seq<char>) -> Seq<Seq<char>> {
    comma_pieces_from(value, 0).map_values(|p: Seq<char>| trim(p))
}

proof fn lemma_next_comma_shift(p: Seq<char>, q: Seq<char>, i: int)
    requires
        0 <= i <= q.len(),
    ensures
        next_comma(p + q, p.len() + i) == p.len() + next_comma(q, i),
    decreases q.len() - i,
{
    if i < q.len() {
        assert((p + q)[p.len() + i] == q[i]);
        lemma_next_comma_shift(p, q, i + 1);
    }
}

proof fn lemma_comma_pieces_shift(p: Seq<char>, q: Seq<char>, i: int)
    requires
        0 <= i <= q.len(),
    ensures
        comma_pieces_from(p + q, p.len() + i) == comma_pieces_from(q, i),
    decreases q.len() - i,
{
    lemma_next_comma_shift(p, q, i);
    lemma_next_comma(q, i);
    let e = next_comma(q, i);
    if e >= q.len() {
        assert((p + q).subrange(p.len() + i, (p + q).len() as int) =~= q.subrange(i, q.len() as int));
    } else {
        assert((p + q).subrange(p.len() + i, p.len() + e) =~= q.subrange(i, e));
        lemma_comma_pieces_shift(p, q, e + 1);
    }
}

proof fn lemma_no_comma_up_to(s: Seq<char>, n: int, i: int)
    requires
        0 <= i <= n <= s.len(),
        forall|k: int| i <= k < n ==> s[k] != ',',
        n < s.len() ==> s[n] == ',',
    ensures
        next_comma(s, i) == n,
    decreases n - i,
{
    if i < n {
        lemma_no_comma_up_to(s, n, i + 1);
    }
}

/// The items of an IN list are the text between commas, each trimmed: a
/// piece without a comma is a single item, and a comma splits off the piece
/// before it as the first item, the rest of the list following.
pub proof fn lemma_list_items_split_at_commas(a: Seq<char>, b: Seq<char>)
    requires
        !a.contains(','),
    ensures
        list_items(a) == seq![trim(a)],
        list_items(a + seq![','] + b) == seq![trim(a)] + list_items(b),
{
    assert forall|k: int| 0 <= k < a.len() implies a[k] != ',' by {
        if a[k] == ',' {
            assert(a.contains(','));
        }
    }
    lemma_no_comma_up_to(a, a.len() as int, 0);
    assert(a.subrange(0, a.len() as int) =~= a);
    assert(comma_pieces_from(a, 0) =~= seq![a]);
    let s = a + seq![','] + b;
    assert forall|k: int| 0 <= k < a.len() implies s[k] != ',' by {
        assert(s[k] == a[k]);
    }
    lemma_no_comma_up_to(s, a.len() as int, 0);
    assert(s.subrange(0, a.len() as int) =~= a);
    assert(s =~= (a + seq![',']) + b);
    lemma_comma_pieces_shift(a + seq![','], b, 0);
    assert(comma_pieces_from(s, 0) =~= seq![a] + comma_pieces_from(b, 0));
    assert(list_items(s) =~= seq![trim(a)] + list_items(b));
}

/// Whether `cell` is among the items of `value`; without case sensitivity both
/// sides are lower-cased first.
pub open spec fn in_list(cell: Seq<char>, value: Seq<char>, case_sensitive: bool) -> bool {
    exists|k: int|
        0 <= k < list_items(value).len() && (if case_sensitive {
            #[trigger] list_items(value)[k] == cell
        } else {
            str_to_lowercase(list_items(value)[k]) == str_to_lowercase(cell)
        })
}

fn in_list_exec(cell: &str, value: &str, case_sensitive: bool) -> (r: bool)
    ensures
        r == in_list(cell@, value@, case_sensitive),
{
    let v = chars_of(value);
    let cell_v = chars_of(cell);
    let cell_low = to_lowercase(cell);
    let cell_low_v = chars_of(cell_low.as_str());
    let ghost items = list_items(value@);
    let ghost pieces = comma_pieces_from(value@, 0);
    let mut i: usize = 0;
    let ghost mut k: int = 0;
    loop
        invariant
            v@ == value@,
            cell_v@ == cell@,
            cell_low_v@ == str_to_lowercase(cell@),
            items == list_items(value@),
            pieces == comma_pieces_from(value@, 0),
            items == pieces.map_values(|p: Seq<char>| trim(p)),
            i <= v.len(),
            0 <= k <= pieces.len(),
            comma_pieces_from(value@, i as int) == pieces.skip(k),
            comma_pieces_from(value@, i as int).len() > 0,
            forall|j: int|
                0 <= j < k ==> !(if case_sensitive {
                    #[trigger] items[j] == cell@
                } else {
                    str_to_lowercase(items[j]) == str_to_lowercase(cell@)
                }),
        decreases v.len() - i,
    {
        let mut e = i;
        while e < v.len() && v[e] != ','
            invariant
                i <= e <= v.len(),
                v@ == value@,
                next_comma(value@, e as int) == next_comma(value@, i as int),
            decreases v.len() - e,
        {
            e = e + 1;
        }
        proof {
            lemma_next_comma(value@, i as int);
        }
        let piece = crate::text::slice_chars(&v, i, e);
        let item = trim_chars(&piece);
        assert(pieces.skip(k)[0] == piece@);
        assert(pieces[k] == piece@);
        assert(items[k] == item@);
        let hit = if case_sensitive {
            chars_eq(&item, &cell_v)
        } else {
            let item_s = crate::text::string_from_chars(&item);
            let item_low = to_lowercase(item_s.as_str());
            let item_low_v = chars_of(item_low.as_str());
            chars_eq(&item_low_v, &cell_low_v)
        };
        if hit {
            return true;
        }
        if e >= v.len() {
            assert(comma_pieces_from(value@, i as int).len() == 1);
            assert(k + 1 == pieces.len());
            return false;
        }
        assert(pieces.skip(k + 1) == pieces.skip(k).drop_first());
        proof {
            k = k + 1;
        }
        i = e + 1;
        assert(comma_pieces_from(value@, i as int).len() > 0);
    }
}

// ---------------------------------------------------------------------------
// Regular expressions (the `regex` crate)
// ---------------------------------------------------------------------------

/// Whether `regex::RegexBuilder::new(pattern).size_limit(limit).build()` succeeds.
pub uninterp spec fn regex_builds(pattern: Seq<char>, size_limit: usize) -> bool;

/// The text (`Display`) of the error that building the regex gives.
pub uninterp spec fn regex_error_text(pattern: Seq<char>, size_limit: usize) -> Seq<char>;

/// Whether the built regex matches somewhere in `haystack` (`Regex::is_match`).
pub uninterp spec fn regex_matches(pattern: Seq<char>, size_limit: usize, haystack: Seq<char>) -> bool;

/// Builds a regex with `regex::RegexBuilder` under a compiled-size limit and
/// reports the error text when it fails; claims only that the outcome is the
/// named build result and error text of these arguments.
#[verifier::external_body]
fn regex_build_error(pattern: &str, size_limit: usize) -> (r: Option<String>)
    ensures
        r is None <==> regex_builds(pattern@, size_limit),
        r matches Some(e) ==> e@ == regex_error_text(pattern@, size_limit),
{
    match regex::RegexBuilder::new(pattern).size_limit(size_limit).build() {
        Ok(_) => None,
        Err(e) => Some(format!("{}", e)),
    }
}

/// Builds a regex with `regex::RegexBuilder` under a compiled-size limit and
/// runs `Regex::is_match`; `None` when the build fails.  Claims only that the
/// answer is the named match result of these arguments.
#[verifier::external_body]
fn regex_is_match(pattern: &str, size_limit: usize, haystack: &str) -> (r: Option<bool>)
    ensures
        r is Some <==> regex_builds(pattern@, size_limit),
        r matches Some(b) ==> b == regex_matches(pattern@, size_limit, haystack@),
{
    match regex::RegexBuilder::new(pattern).size_limit(size_limit).build() {
        Ok(re) => Some(re.is_match(haystack)),
        Err(_) => None,
    }
}

/// The size limit for compiled filter regexes.
pub open spec fn regex_size_limit() -> usize {
    10240
}

/// The longest regex pattern accepted, in bytes.
pub open spec fn regex_max_len() -> nat {
    100
}

/// What `validate_regex` reports for a pattern.
pub open spec fn regex_problem(pattern: Seq<char>) -> Option<Seq<char>> {
    if pattern.len() == 0 {
        None
    } else if vstd::utf8::encode_utf8(pattern).len() > regex_max_len() {
        Some("正则表达式过长 (最大100字符)"@)
    } else if regex_builds(pattern, regex_size_limit()) {
        None
    } else {
        Some("正则错误: "@ + regex_error_text(pattern, regex_size_limit()))
    }
}

/// Checks a regex pattern: empty is fine, over 100 bytes is too long,
/// otherwise it must compile within the size limit.
pub fn validate_regex(pattern: &str) -> (r: Option<String>)
    ensures
        match r {
            None => regex_problem(pattern@) is None,
            Some(m) => regex_problem(pattern@) == Some(m@),
        },
{
    if pattern.is_empty() {
        return None;
    }
    let v = chars_of(pattern);
    proof {
        lemma_utf8_len(pattern@);
    }
    if utf8_len_exceeds(&v, 100) {
        return Some(String::from_str("正则表达式过长 (最大100字符)"));
    }
    match regex_build_error(pattern, 10240) {
        None => None,
        Some(e) => Some(concat2("正则错误: ", e.as_str())),
    }
}

// ---------------------------------------------------------------------------
// Matching one cell
// ---------------------------------------------------------------------------

/// The text compared: itself when case-sensitive, else lower-cased.
pub open spec fn folded(s: Seq<char>, case_sensitive: bool) -> Seq<char> {
    if case_sensitive {
        s
    } else {
        str_to_lowercase(s)
    }
}

/// Whether a cell satisfies a condition.
///
/// `cell_key`, `value_key` and `value2_key` say how `cell`, `value` and the
/// compared second value read as numbers.
pub open spec fn filter_match(
    cell: Seq<char>,
    cell_key: NumKey,
    operator: FilterOperator,
    value: Seq<char>,
    value_key: NumKey,
    value2: Seq<char>,
    value2_key: NumKey,
    case_sensitive: bool,
) -> bool {
    let c = folded(cell, case_sensitive);
    let v = folded(value, case_sensitive);
    let v2 = folded(value2, case_sensitive);
    match operator {
        FilterOperator::Contains => contains_sub(c, v),
        FilterOperator::NotContains => !contains_sub(c, v),
        FilterOperator::Equals => c == v,
        FilterOperator::NotEquals => c != v,
        FilterOperator::StartsWith => starts_with(c, v),
        FilterOperator::EndsWith => ends_with(c, v),
        FilterOperator::GreaterThan => compare_values(
            cell,
            cell_key,
            value,
            value_key,
            Comparison::Greater,
        ),
        FilterOperator::GreaterOrEqual => compare_values(
            cell,
            cell_key,
            value,
            value_key,
            Comparison::GreaterOrEqual,
        ),
        FilterOperator::LessThan => compare_values(cell, cell_key, value, value_key, Comparison::Less),
        FilterOperator::LessOrEqual => compare_values(
            cell,
            cell_key,
            value,
            value_key,
            Comparison::LessOrEqual,
        ),
        FilterOperator::Between => compare_values(
            cell,
            cell_key,
            value,
            value_key,
            Comparison::GreaterOrEqual,
        ) && compare_values(cell, cell_key, v2, value2_key, Comparison::LessOrEqual),
        FilterOperator::NotBetween => !(compare_values(
            cell,
            cell_key,
            value,
            value_key,
            Comparison::GreaterOrEqual,
        ) && compare_values(cell, cell_key, v2, value2_key, Comparison::LessOrEqual)),
        FilterOperator::In => in_list(cell, value, case_sensitive),
        FilterOperator::NotIn => !in_list(cell, value, case_sensitive),
        FilterOperator::IsNull => cell == "NULL"@,
        FilterOperator::IsNotNull => cell != "NULL"@,
        FilterOperator::IsEmpty => cell.len() == 0 || cell == "NULL"@,
        FilterOperator::IsNotEmpty => cell.len() != 0 && cell != "NULL"@,
        FilterOperator::Regex => vstd::utf8::encode_utf8(value).len() <= regex_max_len()
            && regex_builds(value, regex_size_limit()) && regex_matches(
            value,
            regex_size_limit(),
            cell,
        ),
    }
}

/// Each negated operator holds exactly when its positive counterpart does
/// not, for the same cell, values and keys: NOT CONTAINS, NOT EQUALS,
/// NOT BETWEEN, NOT IN, IS NOT NULL and IS NOT EMPTY.
pub proof fn lemma_negated_operators(
    cell: Seq<char>,
    cell_key: NumKey,
    value: Seq<char>,
    value_key: NumKey,
    value2: Seq<char>,
    value2_key: NumKey,
    case_sensitive: bool,
)
    ensures
        filter_match(cell, cell_key, FilterOperator::NotContains, value, value_key, value2, value2_key, case_sensitive)
            == !filter_match(cell, cell_key, FilterOperator::Contains, value, value_key, value2, value2_key, case_sensitive),
        filter_match(cell, cell_key, FilterOperator::NotEquals, value, value_key, value2, value2_key, case_sensitive)
            == !filter_match(cell, cell_key, FilterOperator::Equals, value, value_key, value2, value2_key, case_sensitive),
        filter_match(cell, cell_key, FilterOperator::NotBetween, value, value_key, value2, value2_key, case_sensitive)
            == !filter_match(cell, cell_key, FilterOperator::Between, value, value_key, value2, value2_key, case_sensitive),
        filter_match(cell, cell_key, FilterOperator::NotIn, value, value_key, value2, value2_key, case_sensitive)
            == !filter_match(cell, cell_key, FilterOperator::In, value, value_key, value2, value2_key, case_sensitive),
        filter_match(cell, cell_key, FilterOperator::IsNotNull, value, value_key, value2, value2_key, case_sensitive)
            == !filter_match(cell, cell_key, FilterOperator::IsNull, value, value_key, value2, value2_key, case_sensitive),
        filter_match(cell, cell_key, FilterOperator::IsNotEmpty, value, value_key, value2, value2_key, case_sensitive)
            == !filter_match(cell, cell_key, FilterOperator::IsEmpty, value, value_key, value2, value2_key, case_sensitive),
{
}

/// When the cell and the values all read as numbers, the comparisons are
/// those of the numbers: a cell is greater, at least, less or at most as its
/// key is, lies BETWEEN exactly when it is within the two bounds (both
/// included), and NOT BETWEEN exactly when it is below the first or above
/// the second.
pub proof fn lemma_numeric_comparisons(
    cell: Seq<char>,
    a: i64,
    value: Seq<char>,
    b: i64,
    value2: Seq<char>,
    c: i64,
    case_sensitive: bool,
)
    ensures
        filter_match(cell, NumKey::Num(a), FilterOperator::GreaterThan, value, NumKey::Num(b), value2, NumKey::Num(c), case_sensitive) == (a > b),
        filter_match(cell, NumKey::Num(a), FilterOperator::GreaterOrEqual, value, NumKey::Num(b), value2, NumKey::Num(c), case_sensitive) == (a >= b),
        filter_match(cell, NumKey::Num(a), FilterOperator::LessThan, value, NumKey::Num(b), value2, NumKey::Num(c), case_sensitive) == (a < b),
        filter_match(cell, NumKey::Num(a), FilterOperator::LessOrEqual, value, NumKey::Num(b), value2, NumKey::Num(c), case_sensitive) == (a <= b),
        filter_match(cell, NumKey::Num(a), FilterOperator::Between, value, NumKey::Num(b), value2, NumKey::Num(c), case_sensitive) == (b <= a && a <= c),
        filter_match(cell, NumKey::Num(a), FilterOperator::NotBetween, value, NumKey::Num(b), value2, NumKey::Num(c), case_sensitive) == (a < b || a > c),
{
}

/// When the cell does not read as a number, the four comparisons order the
/// cell text against the value text as `str` does: greater means the value
/// sorts first, less means the cell sorts first, and "at least" / "at most"
/// are the negations of less / greater.
pub proof fn lemma_text_comparisons(
    cell: Seq<char>,
    value: Seq<char>,
    value_key: NumKey,
    value2: Seq<char>,
    value2_key: NumKey,
    case_sensitive: bool,
)
    ensures
        filter_match(cell, NumKey::NotNumber, FilterOperator::GreaterThan, value, value_key, value2, value2_key, case_sensitive) == text_less(value, cell),
        filter_match(cell, NumKey::NotNumber, FilterOperator::LessThan, value, value_key, value2, value2_key, case_sensitive) == text_less(cell, value),
        filter_match(cell, NumKey::NotNumber, FilterOperator::GreaterOrEqual, value, value_key, value2, value2_key, case_sensitive) == !text_less(cell, value),
        filter_match(cell, NumKey::NotNumber, FilterOperator::LessOrEqual, value, value_key, value2, value2_key, case_sensitive) == !text_less(value, cell),
{
}

fn fold_exec(s: &str, case_sensitive: bool) -> (r: Vec<char>)
    ensures
        r@ == folded(s@, case_sensitive),
{
    if case_sensitive {
        chars_of(s)
    } else {
        let l = to_lowercase(s);
        chars_of(l.as_str())
    }
}

/// Tests one cell against one condition (see `filter_match`).
pub fn check_filter_match(
    cell: &str,
    cell_key: NumKey,
    operator: &FilterOperator,
    value: &str,
    value_key: NumKey,
    value2: &str,
    value2_key: NumKey,
    case_sensitive: bool,
) -> (r: bool)
    ensures
        r == filter_match(
            cell@,
            cell_key,
            *operator,
            value@,
            value_key,
            value2@,
            value2_key,
            case_sensitive,
        ),
{
    let c = fold_exec(cell, case_sensitive);
    let v = fold_exec(value, case_sensitive);
    let v2 = fold_exec(value2, case_sensitive);
    let cell_v = chars_of(cell);
    let value_v = chars_of(value);
    match operator {
        FilterOperator::Contains => contains_exec(&c, &v),
        FilterOperator::NotContains => !contains_exec(&c, &v),
        FilterOperator::Equals => chars_eq(&c, &v),
        FilterOperator::NotEquals => !chars_eq(&c, &v),
        FilterOperator::StartsWith => starts_with_exec(&c, &v),
        FilterOperator::EndsWith => ends_with_exec(&c, &v),
        FilterOperator::GreaterThan => compare_values_exec(
            &cell_v,
            cell_key,
            &value_v,
            value_key,
            Comparison::Greater,
        ),
        FilterOperator::GreaterOrEqual => compare_values_exec(
            &cell_v,
            cell_key,
            &value_v,
            value_key,
            Comparison::GreaterOrEqual,
        ),
        FilterOperator::LessThan => compare_values_exec(
            &cell_v,
            cell_key,
            &value_v,
            value_key,
            Comparison::Less,
        ),
        FilterOperator::LessOrEqual => compare_values_exec(
            &cell_v,
            cell_key,
            &value_v,
            value_key,
            Comparison::LessOrEqual,
        ),
        FilterOperator::Between => compare_values_exec(
            &cell_v,
            cell_key,
            &value_v,
            value_key,
            Comparison::GreaterOrEqual,
        ) && compare_values_exec(&cell_v, cell_key, &v2, value2_key, Comparison::LessOrEqual),
        FilterOperator::NotBetween => !(compare_values_exec(
            &cell_v,
            cell_key,
            &value_v,
            value_key,
            Comparison::GreaterOrEqual,
        ) && compare_values_exec(&cell_v, cell_key, &v2, value2_key, Comparison::LessOrEqual)),
        FilterOperator::In => in_list_exec(cell, value, case_sensitive),
        FilterOperator::NotIn => !in_list_exec(cell, value, case_sensitive),
        FilterOperator::IsNull => str_eq(cell, "NULL"),
        FilterOperator::IsNotNull => !str_eq(cell, "NULL"),
        FilterOperator::IsEmpty => cell.is_empty() || str_eq(cell, "NULL"),
        FilterOperator::IsNotEmpty => !cell.is_empty() && !str_eq(cell, "NULL"),
        FilterOperator::Regex => {
            proof {
                lemma_utf8_len(value@);
            }
            if utf8_len_exceeds(&value_v, 100) {
                false
            } else {
                match regex_is_match(value, 10240, cell) {
                    Some(b) => b,
                    None => false,
                }
            }
        },
    }
}

} // verus!
