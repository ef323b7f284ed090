//! Identifier validation, value escaping and the SQL that saves grid edits.
use vstd::prelude::*;
use crate::database::QueryResult;
use crate::text::{
    chars_of, concat2, concat3, decimal, double_char, eq_ignore_ascii_case, eq_ignore_ascii_case_exec,
    join, join_strings, push_char, push_decimal, push_doubled, str_eq, str_to_uppercase, to_uppercase,
    views, utf8_len_exceeds, lemma_utf8_len,
};
use super::state::{edits_cleared, has_edits, DataGridState, GridView};

verus! {

/// Where keyboard focus should move after a grid action.
#[derive(Debug, Clone, Copy, PartialEq, Eq, Structural)]
pub enum FocusTransfer {
    ToSidebar,
    ToSqlEditor,
    ToQueryTabs,
}

/// What a grid interaction asks the application to do.
pub struct DataGridActions {
    /// SQL statements to execute now.
    pub sql_to_execute: Vec<String>,
    /// A status message for the user.
    pub message: Option<String>,
    pub refresh_requested: bool,
    pub focus_transfer: Option<FocusTransfer>,
    pub request_focus: bool,
    /// Switch to the query tab with this index.
    pub switch_to_tab: Option<usize>,
    pub scroll_to_center: bool,
    pub scroll_to_top: bool,
    pub scroll_to_bottom: bool,
    pub open_filter_panel: bool,
}

/// The model of what a grid interaction asks for.
#[verifier::ext_equal]
pub struct ActionsView {
    pub sql_to_execute: Seq<Seq<char>>,
    pub message: Option<Seq<char>>,
    pub refresh_requested: bool,
    pub focus_transfer: Option<FocusTransfer>,
    pub request_focus: bool,
    pub switch_to_tab: Option<usize>,
    pub scroll_to_center: bool,
    pub scroll_to_top: bool,
    pub scroll_to_bottom: bool,
    pub open_filter_panel: bool,
}

impl View for DataGridActions {
    type V = ActionsView;

    open spec fn view(&self) -> ActionsView {
        ActionsView {
            sql_to_execute: views(self.sql_to_execute@),
            message: match self.message {
                Some(m) => Some(m@),
                None => None,
            },
            refresh_requested: self.refresh_requested,
            focus_transfer: self.focus_transfer,
            request_focus: self.request_focus,
            switch_to_tab: self.switch_to_tab,
            scroll_to_center: self.scroll_to_center,
            scroll_to_top: self.scroll_to_top,
            scroll_to_bottom: self.scroll_to_bottom,
            open_filter_panel: self.open_filter_panel,
        }
    }
}

/// The same requests with the message replaced.
pub open spec fn with_message(a: ActionsView, m: Seq<char>) -> ActionsView {
    ActionsView { message: Some(m), ..a }
}

impl Default for DataGridActions {
    fn default() -> (r: Self)
        ensures
            r@ == (ActionsView {
                sql_to_execute: seq![],
                message: None,
                refresh_requested: false,
                focus_transfer: None,
                request_focus: false,
                switch_to_tab: None,
                scroll_to_center: false,
                scroll_to_top: false,
                scroll_to_bottom: false,
                open_filter_panel: false,
            }),
    {
        let r = DataGridActions {
            sql_to_execute: Vec::new(),
            message: None,
            refresh_requested: false,
            focus_transfer: None,
            request_focus: false,
            switch_to_tab: None,
            scroll_to_center: false,
            scroll_to_top: false,
            scroll_to_bottom: false,
            open_filter_panel: false,
        };
        assert(r@.sql_to_execute =~= seq![]);
        r
    }
}

// ---------------------------------------------------------------------------
// Identifiers
// ---------------------------------------------------------------------------

/// Characters that may never appear in an identifier: quotes, `;`, comment
/// markers, backslash, line breaks, NUL, backtick and `-`.
pub open spec fn is_forbidden_char(c: char) -> bool {
    c == '"' || c == '\'' || c == ';' || c == '/' || c == '*' || c == '\\' || c == '\n' || c
        == '\r' || c == '\0' || c == '`' || c == '-'
}

/// The first index at or after `i` that holds a forbidden character (or the length).
pub open spec fn first_forbidden_from(s: Seq<char>, i: int) -> int
    decreases s.len() - i,
{
    if i >= s.len() {
        s.len() as int
    } else if is_forbidden_char(s[i]) {
        i
    } else {
        first_forbidden_from(s, i + 1)
    }
}

/// The number of reserved words that an identifier may not be.
pub open spec fn keyword_count() -> int {
    22
}

/// The reserved words (upper case) that an identifier may not equal.
pub open spec fn dangerous_keyword(i: int) -> Seq<char> {
    if i == 0 {
        "DROP"@
    } else if i == 1 {
        "DELETE"@
    } else if i == 2 {
        "TRUNCATE"@
    } else if i == 3 {
        "ALTER"@
    } else if i == 4 {
        "CREATE"@
    } else if i == 5 {
        "INSERT"@
    } else if i == 6 {
        "UPDATE"@
    } else if i == 7 {
        "EXEC"@
    } else if i == 8 {
        "EXECUTE"@
    } else if i == 9 {
        "UNION"@
    } else if i == 10 {
        "SELECT"@
    } else if i == 11 {
        "FROM"@
    } else if i == 12 {
        "WHERE"@
    } else if i == 13 {
        "OR"@
    } else if i == 14 {
        "AND"@
    } else if i == 15 {
        "--"@
    } else if i == 16 {
        "/*"@
    } else if i == 17 {
        "*/"@
    } else if i == 18 {
        "GRANT"@
    } else if i == 19 {
        "REVOKE"@
    } else if i == 20 {
        "SHUTDOWN"@
    } else {
        "KILL"@
    }
}

fn dangerous_keyword_exec(i: usize) -> (r: &'static str)
    requires
        i < 22,
    ensures
        r@ == dangerous_keyword(i as int),
{
    if i == 0 {
        "DROP"
    } else if i == 1 {
        "DELETE"
    } else if i == 2 {
        "TRUNCATE"
    } else if i == 3 {
        "ALTER"
    } else if i == 4 {
        "CREATE"
    } else if i == 5 {
        "INSERT"
    } else if i == 6 {
        "UPDATE"
    } else if i == 7 {
        "EXEC"
    } else if i == 8 {
        "EXECUTE"
    } else if i == 9 {
        "UNION"
    } else if i == 10 {
        "SELECT"
    } else if i == 11 {
        "FROM"
    } else if i == 12 {
        "WHERE"
    } else if i == 13 {
        "OR"
    } else if i == 14 {
        "AND"
    } else if i == 15 {
        "--"
    } else if i == 16 {
        "/*"
    } else if i == 17 {
        "*/"
    } else if i == 18 {
        "GRANT"
    } else if i == 19 {
        "REVOKE"
    } else if i == 20 {
        "SHUTDOWN"
    } else {
        "KILL"
    }
}

/// `s` is one of the reserved words.
pub open spec fn is_dangerous_keyword(s: Seq<char>) -> bool {
    exists|i: int| 0 <= i < keyword_count() && s == #[trigger] dangerous_keyword(i)
}

/// The outcome of validating an identifier: the name itself, or the error message.
pub open spec fn identifier_check(name: Seq<char>) -> Result<Seq<char>, Seq<char>> {
    if name.len() == 0 {
        Err("标识符不能为空"@)
    } else if vstd::utf8::encode_utf8(name).len() > 63 {
        Err("标识符过长 (最大63字符): "@ + name)
    } else if first_forbidden_from(name, 0) < name.len() {
        Err("标识符 '"@ + name + "' 包含非法字符 '"@ + seq![name[first_forbidden_from(name, 0)]]
            + "'"@)
    } else if is_dangerous_keyword(str_to_uppercase(name)) {
        Err("标识符 '"@ + name + "' 是 SQL 保留字"@)
    } else {
        Ok(name)
    }
}

/// The view of a `Result<String, String>`.
pub open spec fn result_view(r: Result<String, String>) -> Result<Seq<char>, Seq<char>> {
    match r {
        Ok(s) => Ok(s@),
        Err(e) => Err(e@),
    }
}

proof fn lemma_first_forbidden_bounds(s: Seq<char>, i: int)
    requires
        0 <= i <= s.len(),
    ensures
        i <= first_forbidden_from(s, i) <= s.len(),
        first_forbidden_from(s, i) < s.len() ==> is_forbidden_char(
            s[first_forbidden_from(s, i)],
        ),
        forall|k: int| i <= k < first_forbidden_from(s, i) ==> !is_forbidden_char(#[trigger] s[k]),
    decreases s.len() - i,
{
    if i < s.len() && !is_forbidden_char(s[i]) {
        lemma_first_forbidden_bounds(s, i + 1);
    }
}

/// A name is accepted exactly when it is non-empty, at most 63 bytes, holds
/// none of the forbidden characters anywhere and is not a reserved word in
/// any letter case; an accepted name is answered unchanged.
pub proof fn lemma_identifier_accepted_exactly_when(name: Seq<char>)
    ensures
        (identifier_check(name) is Ok) <==> {
            &&& name.len() > 0
            &&& vstd::utf8::encode_utf8(name).len() <= 63
            &&& forall|k: int| 0 <= k < name.len() ==> !is_forbidden_char(#[trigger] name[k])
            &&& !is_dangerous_keyword(str_to_uppercase(name))
        },
        identifier_check(name) is Ok ==> identifier_check(name) == Ok::<Seq<char>, Seq<char>>(name),
{
    lemma_first_forbidden_bounds(name, 0);
}

fn is_forbidden_exec(c: char) -> (r: bool)
    ensures
        r == is_forbidden_char(c),
{
    c == '"' || c == '\'' || c == ';' || c == '/' || c == '*' || c == '\\' || c == '\n' || c
        == '\r' || c == '\0' || c == '`' || c == '-'
}

/// Validates a table or column name against SQL injection.
///
/// Rejects the empty name, names longer than 63 bytes, names holding a quote,
/// `;`, comment marker, backslash, line break, NUL, backtick or `-`, and names
/// whose upper-case form is a reserved word; otherwise returns the name unchanged.
pub fn escape_identifier(name: &str) -> (r: Result<String, String>)
    ensures
        result_view(r) == identifier_check(name@),
{
    if name.is_empty() {
        return Err(String::from_str("标识符不能为空"));
    }
    let v = chars_of(name);
    proof {
        lemma_utf8_len(name@);
    }
    if utf8_len_exceeds(&v, 63) {
        return Err(concat2("标识符过长 (最大63字符): ", name));
    }
    let mut i: usize = 0;
    while i < v.len()
        invariant
            v@ == name@,
            name@.len() > 0,
            vstd::utf8::encode_utf8(name@).len() <= 63,
            i <= v.len(),
            first_forbidden_from(name@, 0) == first_forbidden_from(name@, i as int),
        decreases v.len() - i,
    {
        if is_forbidden_exec(v[i]) {
            let mut msg = concat3("标识符 '", name, "' 包含非法字符 '");
            let ghost m0 = msg@;
            push_char(&mut msg, v[i]);
            msg.append("'");
            assert(first_forbidden_from(name@, i as int) == i as int);
            assert(msg@ =~= m0 + seq![name@[i as int]] + "'"@);
            return Err(msg);
        }
        i = i + 1;
    }
    let upper = to_uppercase(name);
    let mut k: usize = 0;
    while k < 22
        invariant
            k <= 22,
            name@.len() > 0,
            vstd::utf8::encode_utf8(name@).len() <= 63,
            first_forbidden_from(name@, 0) == name@.len(),
            upper@ == str_to_uppercase(name@),
            forall|j: int| 0 <= j < k ==> str_to_uppercase(name@) != dangerous_keyword(j),
        decreases 22 - k,
    {
        if str_eq(upper.as_str(), dangerous_keyword_exec(k)) {
            return Err(concat3("标识符 '", name, "' 是 SQL 保留字"));
        }
        k = k + 1;
    }
    Ok(String::from_str(name))
}

/// The quoted form of a validated identifier.
pub open spec fn quoted(name: Seq<char>, use_backticks: bool) -> Seq<char> {
    if use_backticks {
        "`"@ + double_char(name, '`') + "`"@
    } else {
        "\""@ + double_char(name, '"') + "\""@
    }
}

/// Validates an identifier and wraps it in the quote style of the engine:
/// backticks for MySQL, double quotes otherwise (with embedded quotes doubled).
pub fn quote_identifier(name: &str, use_backticks: bool) -> (r: Result<String, String>)
    ensures
        result_view(r) == (match identifier_check(name@) {
            Ok(v) => Ok(quoted(v, use_backticks)),
            Err(e) => Err(e),
        }),
{
    let validated = escape_identifier(name)?;
    if use_backticks {
        let mut s = String::from_str("`");
        push_doubled(&mut s, validated.as_str(), '`');
        s.append("`");
        Ok(s)
    } else {
        let mut s = String::from_str("\"");
        push_doubled(&mut s, validated.as_str(), '"');
        s.append("\"");
        Ok(s)
    }
}

// ---------------------------------------------------------------------------
// Values
// ---------------------------------------------------------------------------

/// A SQL string literal for `value`; the text `NULL` stays the keyword `NULL`.
pub open spec fn escaped_value(value: Seq<char>) -> Seq<char> {
    if value == "NULL"@ {
        "NULL"@
    } else {
        "'"@ + double_char(value, '\'') + "'"@
    }
}

/// Reading back a text whose `q` characters were doubled: each pair of `q`
/// is read as one.
pub open spec fn undouble(s: Seq<char>, q: char) -> Seq<char>
    decreases s.len(),
{
    if s.len() == 0 {
        seq![]
    } else if s.len() >= 2 && s.last() == q && s[s.len() - 2] == q {
        undouble(s.take(s.len() - 2), q).push(q)
    } else {
        undouble(s.drop_last(), q).push(s.last())
    }
}

/// Doubling a quote character can be read back: the escaped text determines
/// the original one.
pub proof fn lemma_undouble_double(s: Seq<char>, q: char)
    ensures
        undouble(double_char(s, q), q) == s,
    decreases s.len(),
{
    if s.len() > 0 {
        let d = double_char(s.drop_last(), q);
        lemma_undouble_double(s.drop_last(), q);
        if s.last() == q {
            let t = d + seq![q, q];
            assert(t.take(t.len() - 2) =~= d);
        } else {
            let t = d + seq![s.last()];
            assert(t.drop_last() =~= d);
        }
        assert(s.drop_last().push(s.last()) =~= s);
    }
}

/// A text without `q` is left as it is by doubling.
pub proof fn lemma_double_without_quote(s: Seq<char>, q: char)
    requires
        !s.contains(q),
    ensures
        double_char(s, q) == s,
    decreases s.len(),
{
    if s.len() > 0 {
        assert(!s.drop_last().contains(q)) by {
            if s.drop_last().contains(q) {
                let k = choose|k: int| 0 <= k < s.drop_last().len() && s.drop_last()[k] == q;
                assert(s[k] == q);
            }
        }
        lemma_double_without_quote(s.drop_last(), q);
        assert(s[s.len() - 1] != q);
        assert(s.drop_last().push(s.last()) =~= s);
    }
}

/// An escaped value other than `NULL` is the value in single quotes with
/// its quotes doubled, and reading it back gives the value: escaping cannot
/// make two values meet, nor end the literal early.
pub proof fn lemma_escape_value_roundtrip(value: Seq<char>)
    ensures
        value != "NULL"@ ==> escaped_value(value) == "'"@ + double_char(value, '\'') + "'"@,
        undouble(double_char(value, '\''), '\'') == value,
{
    lemma_undouble_double(value, '\'');
}

/// A name that passes the identifier check holds neither quote character,
/// so quoting only wraps it: `` `name` `` or `"name"`.
pub proof fn lemma_valid_identifier_quoted_verbatim(name: Seq<char>, use_backticks: bool)
    requires
        identifier_check(name) is Ok,
    ensures
        quoted(name, use_backticks) == (if use_backticks {
            "`"@ + name + "`"@
        } else {
            "\""@ + name + "\""@
        }),
{
    lemma_first_forbidden_bounds(name, 0);
    assert(!name.contains('`')) by {
        if name.contains('`') {
            let k = choose|k: int| 0 <= k < name.len() && name[k] == '`';
            assert(!is_forbidden_char(name[k]));
        }
    }
    assert(!name.contains('"')) by {
        if name.contains('"') {
            let k = choose|k: int| 0 <= k < name.len() && name[k] == '"';
            assert(!is_forbidden_char(name[k]));
        }
    }
    lemma_double_without_quote(name, '`');
    lemma_double_without_quote(name, '"');
}

/// Escapes a value as a SQL string literal, doubling single quotes.
pub fn escape_value(value: &str) -> (r: String)
    ensures
        r@ == escaped_value(value@),
{
    if str_eq(value, "NULL") {
        return String::from_str("NULL");
    }
    let mut s = String::from_str("'");
    push_doubled(&mut s, value, '\'');
    s.append("'");
    s
}

// ---------------------------------------------------------------------------
// Saving edits
// ---------------------------------------------------------------------------

/// The SQL for a new cell text: empty text or `null` (any ASCII case) means NULL.
pub open spec fn cell_sql(v: Seq<char>) -> Seq<char> {
    if v.len() == 0 || eq_ignore_ascii_case(v, "null"@) {
        "NULL"@
    } else {
        escaped_value(v)
    }
}

fn cell_sql_exec(v: &str) -> (r: String)
    ensures
        r@ == cell_sql(v@),
{
    if v.is_empty() || eq_ignore_ascii_case_exec(v, "null") {
        String::from_str("NULL")
    } else {
        escape_value(v)
    }
}

/// The first column at or after `i` whose name fails validation (or the count).
pub open spec fn first_invalid_column_from(cols: Seq<Seq<char>>, i: int) -> int
    decreases cols.len() - i,
{
    if i >= cols.len() {
        cols.len() as int
    } else if identifier_check(cols[i]) is Err {
        i
    } else {
        first_invalid_column_from(cols, i + 1)
    }
}

/// The first column at or after `i` named `id` in any ASCII case (or the count).
pub open spec fn id_column_from(cols: Seq<Seq<char>>, i: int) -> int
    decreases cols.len() - i,
{
    if i >= cols.len() {
        cols.len() as int
    } else if eq_ignore_ascii_case(cols[i], "id"@) {
        i
    } else {
        id_column_from(cols, i + 1)
    }
}

/// The primary-key column: the one set on the grid, else the first `id` column.
pub open spec fn primary_key_index(cols: Seq<Seq<char>>, pk: Option<usize>) -> Option<int> {
    match pk {
        Some(i) => Some(i as int),
        None => if id_column_from(cols, 0) < cols.len() {
            Some(id_column_from(cols, 0))
        } else {
            None
        },
    }
}

/// `UPDATE t SET col = value WHERE pk = key;`
pub open spec fn update_sql(
    t: Seq<char>,
    col: Seq<char>,
    value: Seq<char>,
    pk_col: Seq<char>,
    key: Seq<char>,
) -> Seq<char> {
    "UPDATE "@ + t + " SET "@ + col + " = "@ + cell_sql(value) + " WHERE "@ + pk_col + " = "@
        + escaped_value(key) + ";"@
}

/// `DELETE FROM t WHERE pk = key;`
pub open spec fn delete_sql(t: Seq<char>, pk_col: Seq<char>, key: Seq<char>) -> Seq<char> {
    "DELETE FROM "@ + t + " WHERE "@ + pk_col + " = "@ + escaped_value(key) + ";"@
}

/// `INSERT INTO t (cols) VALUES (values);`
pub open spec fn insert_sql(t: Seq<char>, cols: Seq<Seq<char>>, row: Seq<Seq<char>>) -> Seq<char> {
    "INSERT INTO "@ + t + " ("@ + join(cols, ", "@) + ") VALUES ("@ + join(
        row.map_values(|v: Seq<char>| cell_sql(v)),
        ", "@,
    ) + ");"@
}

/// The view of the edited cells.
pub open spec fn edit_views(edits: Seq<((usize, usize), String)>) -> Seq<((usize, usize), Seq<char>)> {
    edits.map_values(|e: ((usize, usize), String)| (e.0, e.1@))
}

/// One UPDATE for an edit whose row, key cell and column exist; none otherwise.
pub open spec fn update_for(
    t: Seq<char>,
    cols: Seq<Seq<char>>,
    rows: Seq<Seq<Seq<char>>>,
    pk: int,
    e: ((usize, usize), Seq<char>),
) -> Seq<Seq<char>> {
    let r = e.0.0 as int;
    let c = e.0.1 as int;
    if r < rows.len() && pk < rows[r].len() && c < cols.len() {
        seq![update_sql(t, cols[c], e.1, cols[pk], rows[r][pk])]
    } else {
        seq![]
    }
}

/// The UPDATE statements for a list of edits, in order.
pub open spec fn update_stmts(
    t: Seq<char>,
    cols: Seq<Seq<char>>,
    rows: Seq<Seq<Seq<char>>>,
    pk: int,
    edits: Seq<((usize, usize), Seq<char>)>,
) -> Seq<Seq<char>>
    decreases edits.len(),
{
    if edits.len() == 0 {
        seq![]
    } else {
        update_stmts(t, cols, rows, pk, edits.drop_last()) + update_for(
            t,
            cols,
            rows,
            pk,
            edits.last(),
        )
    }
}

/// One DELETE for a marked row whose key cell exists; none otherwise.
pub open spec fn delete_for(
    t: Seq<char>,
    cols: Seq<Seq<char>>,
    rows: Seq<Seq<Seq<char>>>,
    pk: int,
    r: usize,
) -> Seq<Seq<char>> {
    if (r as int) < rows.len() && pk < rows[r as int].len() {
        seq![delete_sql(t, cols[pk], rows[r as int][pk])]
    } else {
        seq![]
    }
}

/// The DELETE statements for the marked rows, in order.
pub open spec fn delete_stmts(
    t: Seq<char>,
    cols: Seq<Seq<char>>,
    rows: Seq<Seq<Seq<char>>>,
    pk: int,
    dels: Seq<usize>,
) -> Seq<Seq<char>>
    decreases dels.len(),
{
    if dels.len() == 0 {
        seq![]
    } else {
        delete_stmts(t, cols, rows, pk, dels.drop_last()) + delete_for(
            t,
            cols,
            rows,
            pk,
            dels.last(),
        )
    }
}

/// A new row counts when one of its cells is not empty.
pub open spec fn row_has_content(row: Seq<Seq<char>>) -> bool {
    exists|i: int| 0 <= i < row.len() && (#[trigger] row[i]).len() != 0
}

/// The INSERT statements for the new rows that hold content, in order.
pub open spec fn insert_stmts(
    t: Seq<char>,
    cols: Seq<Seq<char>>,
    new_rows: Seq<Seq<Seq<char>>>,
) -> Seq<Seq<char>>
    decreases new_rows.len(),
{
    if new_rows.len() == 0 {
        seq![]
    } else {
        insert_stmts(t, cols, new_rows.drop_last()) + (if row_has_content(new_rows.last()) {
            seq![insert_sql(t, cols, new_rows.last())]
        } else {
            seq![]
        })
    }
}

/// What saving the grid's edits leads to.
pub enum SavePlan {
    /// Saving is refused, with this message.
    Rejected(Seq<char>),
    /// There is nothing to save.
    Nothing,
    /// These statements wait for confirmation (rows are deleted).
    Confirm(Seq<Seq<char>>),
    /// These statements run at once.
    Execute(Seq<Seq<char>>),
}

/// The message when no primary key can be found.
pub open spec fn no_key_message() -> Seq<char> {
    "无法确定主键列：未找到 'id' 列。\n请确保表有主键列，或使用自定义 SQL 进行修改。"@
}

/// The plan for saving: validation of the table and column names, choice of
/// the key column, then UPDATEs, DELETEs and INSERTs in that order.
pub open spec fn save_plan(
    result: QueryResult,
    state: DataGridState,
    table: Seq<char>,
) -> SavePlan {
    let cols = result.column_views();
    let rows = result.row_views();
    if identifier_check(table) is Err {
        SavePlan::Rejected("表名无效: "@ + identifier_check(table)->Err_0)
    } else if first_invalid_column_from(cols, 0) < cols.len() {
        SavePlan::Rejected(
            "列名无效: "@ + identifier_check(cols[first_invalid_column_from(cols, 0)])->Err_0,
        )
    } else {
        match primary_key_index(cols, state.primary_key_column) {
            None => SavePlan::Rejected(no_key_message()),
            Some(pk) => if pk >= cols.len() {
                SavePlan::Rejected("主键列索引 "@ + decimal(pk as nat) + " 超出范围"@)
            } else {
                let stmts = update_stmts(
                    table,
                    cols,
                    rows,
                    pk,
                    edit_views(state.modified_cells@),
                ) + delete_stmts(table, cols, rows, pk, state.rows_to_delete@) + insert_stmts(
                    table,
                    cols,
                    state.new_rows@.map_values(|r: Vec<String>| views(r@)),
                );
                if stmts.len() == 0 {
                    SavePlan::Nothing
                } else if state.rows_to_delete@.len() > 0 {
                    SavePlan::Confirm(stmts)
                } else {
                    SavePlan::Execute(stmts)
                }
            },
        }
    }
}

/// A new row is saved exactly when one of its cells is not empty, whichever
/// column that is: the INSERT statements are those of such rows, in order,
/// each naming every column; rows whose cells are all empty are skipped.
pub proof fn lemma_new_rows_with_text_are_inserted(
    t: Seq<char>,
    cols: Seq<Seq<char>>,
    new_rows: Seq<Seq<Seq<char>>>,
)
    ensures
        insert_stmts(t, cols, new_rows) == new_rows.filter_map(
            |row: Seq<Seq<char>>|
                if exists|i: int| 0 <= i < row.len() && (#[trigger] row[i]).len() != 0 {
                    Some(insert_sql(t, cols, row))
                } else {
                    None
                },
        ),
    decreases new_rows.len(),
{
    if new_rows.len() > 0 {
        lemma_new_rows_with_text_are_inserted(t, cols, new_rows.drop_last());
        let row = new_rows.last();
        if row_has_content(row) {
            let i = choose|i: int| 0 <= i < row.len() && (#[trigger] row[i]).len() != 0;
            assert(0 <= i < row.len() && row[i].len() != 0);
        }
    }
}

/// Saving a grid whose only edits are new rows runs one INSERT per new row
/// that holds any text, in order; with no such row there is nothing to save.
pub proof fn lemma_saving_only_new_rows(result: QueryResult, state: DataGridState, table: Seq<char>)
    requires
        state.modified_cells@.len() == 0,
        state.rows_to_delete@.len() == 0,
        !(save_plan(result, state, table) is Rejected),
    ensures
        ({
            let inserts = state.new_rows@.map_values(|r: Vec<String>| views(r@)).filter_map(
                |row: Seq<Seq<char>>|
                    if exists|i: int| 0 <= i < row.len() && (#[trigger] row[i]).len() != 0 {
                        Some(insert_sql(table, result.column_views(), row))
                    } else {
                        None
                    },
            );
            save_plan(result, state, table) == if inserts.len() == 0 {
                SavePlan::Nothing
            } else {
                SavePlan::Execute(inserts)
            }
        }),
{
    let nrs = state.new_rows@.map_values(|r: Vec<String>| views(r@));
    lemma_new_rows_with_text_are_inserted(table, result.column_views(), nrs);
    assert(edit_views(state.modified_cells@) =~= seq![]);
}

/// The SQL written for a cell's new text: empty text, or `null` in any
/// letter case, is the keyword `NULL`; any other text becomes a single-quoted
/// literal whose inside reads back as exactly that text.
pub proof fn lemma_cell_sql_null_or_literal(v: Seq<char>)
    ensures
        (v.len() == 0 || eq_ignore_ascii_case(v, "null"@)) ==> cell_sql(v) == "NULL"@,
        !(v.len() == 0 || eq_ignore_ascii_case(v, "null"@)) ==> {
            let s = cell_sql(v);
            &&& s.len() >= 2
            &&& s[0] == '\''
            &&& s[s.len() - 1] == '\''
            &&& undouble(s.subrange(1, s.len() - 1), '\'') == v
        },
{
    reveal_strlit("NULL");
    reveal_strlit("null");
    reveal_strlit("'");
    if !(v.len() == 0 || eq_ignore_ascii_case(v, "null"@)) {
        if v == "NULL"@ {
            assert(eq_ignore_ascii_case(v, "null"@));
        }
        let d = double_char(v, '\'');
        let s = "'"@ + d + "'"@;
        assert(s.subrange(1, s.len() - 1) =~= d);
        lemma_undouble_double(v, '\'');
    }
}

/// Saving waits for confirmation exactly when rows are to be deleted: a plan
/// that runs at once deletes no row, and a plan with rows to delete always
/// asks first.
pub proof fn lemma_deletions_wait_for_confirmation(
    result: QueryResult,
    state: DataGridState,
    table: Seq<char>,
)
    ensures
        save_plan(result, state, table) is Execute ==> state.rows_to_delete@.len() == 0,
        save_plan(result, state, table) is Confirm ==> state.rows_to_delete@.len() > 0,
{
}

/// The message of an action set, as characters.
pub open spec fn message_is(a: DataGridActions, m: Seq<char>) -> bool {
    a.message matches Some(s) && s@ == m
}

fn update_stmt_exec(t: &str, col: &str, value: &str, pk_col: &str, key: &str) -> (r: String)
    ensures
        r@ == update_sql(t@, col@, value@, pk_col@, key@),
{
    let mut s = concat3("UPDATE ", t, " SET ");
    s.append(col);
    s.append(" = ");
    let v = cell_sql_exec(value);
    s.append(v.as_str());
    s.append(" WHERE ");
    s.append(pk_col);
    s.append(" = ");
    let k = escape_value(key);
    s.append(k.as_str());
    s.append(";");
    s
}

fn delete_stmt_exec(t: &str, pk_col: &str, key: &str) -> (r: String)
    ensures
        r@ == delete_sql(t@, pk_col@, key@),
{
    let mut s = concat3("DELETE FROM ", t, " WHERE ");
    s.append(pk_col);
    s.append(" = ");
    let k = escape_value(key);
    s.append(k.as_str());
    s.append(";");
    s
}

fn insert_stmt_exec(t: &str, cols: &Vec<String>, row: &Vec<String>) -> (r: String)
    ensures
        r@ == insert_sql(t@, views(cols@), views(row@)),
{
    let mut vals: Vec<String> = Vec::new();
    let mut i: usize = 0;
    while i < row.len()
        invariant
            i <= row.len(),
            vals@.len() == i,
            forall|j: int| 0 <= j < i ==> (#[trigger] vals@[j])@ == cell_sql(row@[j]@),
        decreases row.len() - i,
    {
        let v = cell_sql_exec(row[i].as_str());
        vals.push(v);
        i = i + 1;
    }
    assert(views(vals@) =~= views(row@).map_values(|v: Seq<char>| cell_sql(v)));
    let mut s = concat3("INSERT INTO ", t, " (");
    let c = join_strings(cols.as_slice(), ", ");
    s.append(c.as_str());
    s.append(") VALUES (");
    let vj = join_strings(vals.as_slice(), ", ");
    s.append(vj.as_str());
    s.append(");");
    s
}

fn has_content_exec(row: &Vec<String>) -> (r: bool)
    ensures
        r == row_has_content(views(row@)),
{
    let mut i: usize = 0;
    while i < row.len()
        invariant
            i <= row.len(),
            forall|j: int| 0 <= j < i ==> (#[trigger] views(row@)[j]).len() == 0,
        decreases row.len() - i,
    {
        if !row[i].as_str().is_empty() {
            assert(views(row@)[i as int].len() != 0);
            return true;
        }
        i = i + 1;
    }
    false
}

/// What saving comes to, with the texts built.
pub enum SaveOutcome {
    Rejected(String),
    Nothing,
    Confirm(Vec<String>),
    Execute(Vec<String>),
}

/// The plan that an outcome carries out.
pub open spec fn outcome_plan(o: SaveOutcome) -> SavePlan {
    match o {
        SaveOutcome::Rejected(m) => SavePlan::Rejected(m@),
        SaveOutcome::Nothing => SavePlan::Nothing,
        SaveOutcome::Confirm(v) => SavePlan::Confirm(views(v@)),
        SaveOutcome::Execute(v) => SavePlan::Execute(views(v@)),
    }
}

/// Builds the statements that save the grid's edits (see `save_plan`).
pub fn plan_save(result: &QueryResult, state: &DataGridState, table_name: &str) -> (r: SaveOutcome)
    ensures
        outcome_plan(r) == save_plan(*result, *state, table_name@),
{
    let ghost cols = result.column_views();
    let ghost rows = result.row_views();
    let safe_table_name = match escape_identifier(table_name) {
        Ok(name) => name,
        Err(e) => {
            return SaveOutcome::Rejected(concat2("表名无效: ", e.as_str()));
        },
    };
    let mut ci: usize = 0;
    while ci < result.columns.len()
        invariant
            cols == result.column_views(),
            identifier_check(table_name@) is Ok,
            ci <= result.columns.len(),
            first_invalid_column_from(cols, 0) == first_invalid_column_from(cols, ci as int),
        decreases result.columns.len() - ci,
    {
        match escape_identifier(result.columns[ci].as_str()) {
            Ok(_) => {},
            Err(e) => {
                return SaveOutcome::Rejected(concat2("列名无效: ", e.as_str()));
            },
        }
        ci = ci + 1;
    }
    let pk_idx: usize = match state.primary_key_column {
        Some(idx) => idx,
        None => {
            let mut k: usize = 0;
            while k < result.columns.len() && !eq_ignore_ascii_case_exec(
                result.columns[k].as_str(),
                "id",
            )
                invariant
                    cols == result.column_views(),
                                    k <= result.columns.len(),
                    id_column_from(cols, 0) == id_column_from(cols, k as int),
                decreases result.columns.len() - k,
            {
                k = k + 1;
            }
            let found: Option<usize> = if k < result.columns.len() {
                Some(k)
            } else {
                None
            };
            match found {
                Some(f) => f,
                None => {
                    return SaveOutcome::Rejected(
                        String::from_str(
                            "无法确定主键列：未找到 'id' 列。\n请确保表有主键列，或使用自定义 SQL 进行修改。",
                        ),
                    );
                },
            }
        },
    };
    if pk_idx >= result.columns.len() {
        let mut m = String::from_str("主键列索引 ");
        push_decimal(&mut m, pk_idx as u64);
        m.append(" 超出范围");
        return SaveOutcome::Rejected(m);
    }
    let ghost pk = pk_idx as int;
    let t = safe_table_name.as_str();
    let pk_col = result.columns[pk_idx].as_str();
    let mut stmts: Vec<String> = Vec::new();
    // UPDATE statements
    let ghost edits = edit_views(state.modified_cells@);
    let mut i: usize = 0;
    while i < state.modified_cells.len()
        invariant
            cols == result.column_views(),
            rows == result.row_views(),
            edits == edit_views(state.modified_cells@),
            pk < cols.len(),
            pk == pk_idx,
            t@ == table_name@,
            pk_col@ == cols[pk],
            i <= state.modified_cells.len(),
            first_invalid_column_from(cols, 0) == cols.len(),
            identifier_check(table_name@) is Ok,
            primary_key_index(cols, state.primary_key_column) == Some(pk_idx as int),
            views(stmts@) == update_stmts(table_name@, cols, rows, pk, edits.take(i as int)),
        decreases state.modified_cells.len() - i,
    {
        assert(edits.take(i + 1).drop_last() == edits.take(i as int));
        assert(edits.take(i + 1).last() == edits[i as int]);
        let r = state.modified_cells[i].0.0;
        let c = state.modified_cells[i].0.1;
        if r < result.rows.len() {
            assert(rows[r as int] == views(result.rows@[r as int]@));
        }
        if r < result.rows.len() && pk_idx < result.rows[r].len() && c < result.columns.len() {
            let s = update_stmt_exec(
                t,
                result.columns[c].as_str(),
                state.modified_cells[i].1.as_str(),
                pk_col,
                result.rows[r][pk_idx].as_str(),
            );
            stmts.push(s);
        }
        i = i + 1;
        assert(views(stmts@) =~= update_stmts(table_name@, cols, rows, pk, edits.take(i as int)));
    }
    assert(edits.take(state.modified_cells.len() as int) == edits);
    let ghost ups = views(stmts@);
    // DELETE statements
    let ghost dels = state.rows_to_delete@;
    let mut d: usize = 0;
    while d < state.rows_to_delete.len()
        invariant
            cols == result.column_views(),
            rows == result.row_views(),
            dels == state.rows_to_delete@,
            pk < cols.len(),
            pk == pk_idx,
            t@ == table_name@,
            pk_col@ == cols[pk],
            d <= state.rows_to_delete.len(),
            first_invalid_column_from(cols, 0) == cols.len(),
            identifier_check(table_name@) is Ok,
            primary_key_index(cols, state.primary_key_column) == Some(pk_idx as int),
            views(stmts@) == ups + delete_stmts(table_name@, cols, rows, pk, dels.take(d as int)),
        decreases state.rows_to_delete.len() - d,
    {
        assert(dels.take(d + 1).drop_last() == dels.take(d as int));
        assert(dels.take(d + 1).last() == dels[d as int]);
        let ghost before = views(stmts@);
        assert(delete_stmts(table_name@, cols, rows, pk, dels.take(d + 1)) == delete_stmts(
            table_name@,
            cols,
            rows,
            pk,
            dels.take(d as int),
        ) + delete_for(table_name@, cols, rows, pk, dels[d as int]));
        let r = state.rows_to_delete[d];
        if r < result.rows.len() {
            assert(rows[r as int] == views(result.rows@[r as int]@));
        }
        if r < result.rows.len() && pk_idx < result.rows[r].len() {
            let s = delete_stmt_exec(t, pk_col, result.rows[r][pk_idx].as_str());
            stmts.push(s);
            assert(views(stmts@) =~= before.push(s@));
            assert(delete_for(table_name@, cols, rows, pk, dels[d as int]) == seq![s@]);
        } else {
            assert(delete_for(table_name@, cols, rows, pk, dels[d as int]) == Seq::<Seq<char>>::empty());
        }
        d = d + 1;
        assert(views(stmts@) =~= ups + delete_stmts(
            table_name@,
            cols,
            rows,
            pk,
            dels.take(d as int),
        ));
    }
    assert(dels.take(state.rows_to_delete.len() as int) == dels);
    let ghost ups_dels = views(stmts@);
    // INSERT statements
    let ghost nrs = state.new_rows@.map_values(|r: Vec<String>| views(r@));
    let mut n: usize = 0;
    while n < state.new_rows.len()
        invariant
            cols == result.column_views(),
            nrs == state.new_rows@.map_values(|r: Vec<String>| views(r@)),
            t@ == table_name@,
            n <= state.new_rows.len(),
            first_invalid_column_from(cols, 0) == cols.len(),
            identifier_check(table_name@) is Ok,
            primary_key_index(cols, state.primary_key_column) == Some(pk_idx as int),
            views(stmts@) == ups_dels + insert_stmts(table_name@, cols, nrs.take(n as int)),
        decreases state.new_rows.len() - n,
    {
        assert(nrs.take(n + 1).drop_last() == nrs.take(n as int));
        assert(nrs[n as int] == views(state.new_rows@[n as int]@));
        assert(nrs.take(n + 1).last() == nrs[n as int]);
        let ghost before = views(stmts@);
        if has_content_exec(&state.new_rows[n]) {
            let s = insert_stmt_exec(t, &result.columns, &state.new_rows[n]);
            stmts.push(s);
            assert(views(stmts@) =~= before.push(s@));
        }
        n = n + 1;
        assert(views(stmts@) =~= ups_dels + insert_stmts(table_name@, cols, nrs.take(n as int)));
    }
    assert(nrs.take(state.new_rows.len() as int) == nrs);
    assert(views(stmts@) =~= ups + delete_stmts(table_name@, cols, rows, pk, dels)
        + insert_stmts(table_name@, cols, nrs));
    if stmts.len() == 0 {
        return SaveOutcome::Nothing;
    }
    if state.rows_to_delete.len() > 0 {
        SaveOutcome::Confirm(stmts)
    } else {
        SaveOutcome::Execute(stmts)
    }
}

/// The grid and the requests after a save, by their models (see
/// `generate_save_sql`).
pub open spec fn saved(
    result: QueryResult,
    s: DataGridState,
    table: Seq<char>,
    a: ActionsView,
) -> (GridView, ActionsView) {
    match save_plan(result, s, table) {
        SavePlan::Rejected(m) => (s@, with_message(a, m)),
        SavePlan::Nothing => (s@, with_message(a, "没有需要保存的修改"@)),
        SavePlan::Confirm(stmts) => (
            GridView { pending_sql: stmts, show_save_confirm: true, ..s@ },
            with_message(a, "包含 "@ + decimal(s.rows_to_delete@.len()) + " 条删除操作，请确认"@),
        ),
        SavePlan::Execute(stmts) => (
            edits_cleared(s@),
            ActionsView {
                sql_to_execute: stmts,
                ..with_message(a, "将执行 "@ + decimal(stmts.len()) + " 条 SQL 语句"@)
            },
        ),
    }
}

/// Builds the statements that save the grid's edits and decides whether they
/// run at once or wait for confirmation (they wait whenever rows are deleted).
pub fn generate_save_sql(
    result: &QueryResult,
    state: &mut DataGridState,
    table_name: &str,
    actions: &mut DataGridActions,
)
    ensures
        match save_plan(*result, *old(state), table_name@) {
            SavePlan::Rejected(m) => {
                &&& final(actions)@ == with_message(old(actions)@, m)
                &&& *final(state) == *old(state)
            },
            SavePlan::Nothing => {
                &&& final(actions)@ == with_message(old(actions)@, "没有需要保存的修改"@)
                &&& *final(state) == *old(state)
            },
            SavePlan::Confirm(stmts) => {
                &&& final(state)@ == (GridView {
                    pending_sql: stmts,
                    show_save_confirm: true,
                    ..old(state)@
                })
                &&& final(actions)@ == with_message(
                    old(actions)@,
                    "包含 "@ + decimal(old(state).rows_to_delete@.len()) + " 条删除操作，请确认"@,
                )
            },
            SavePlan::Execute(stmts) => {
                &&& final(state)@ == edits_cleared(old(state)@)
                &&& final(actions)@ == (ActionsView {
                    sql_to_execute: stmts,
                    ..with_message(old(actions)@, "将执行 "@ + decimal(stmts.len()) + " 条 SQL 语句"@)
                })
            },
        },
        (final(state)@, final(actions)@) == saved(*result, *old(state), table_name@, old(actions)@),
{
    match plan_save(result, state, table_name) {
        SaveOutcome::Rejected(m) => {
            actions.message = Some(m);
        },
        SaveOutcome::Nothing => {
            actions.message = Some(String::from_str("没有需要保存的修改"));
        },
        SaveOutcome::Confirm(stmts) => {
            let mut m = String::from_str("包含 ");
            push_decimal(&mut m, state.rows_to_delete.len() as u64);
            m.append(" 条删除操作，请确认");
            state.pending_sql = stmts;
            state.show_save_confirm = true;
            actions.message = Some(m);
        },
        SaveOutcome::Execute(stmts) => {
            let mut m = String::from_str("将执行 ");
            push_decimal(&mut m, stmts.len() as u64);
            m.append(" 条 SQL 语句");
            actions.sql_to_execute = stmts;
            actions.message = Some(m);
            state.clear_edits();
        },
    }
}

/// Runs the statements that waited for confirmation and closes the prompt.
pub fn confirm_pending_sql(state: &mut DataGridState, actions: &mut DataGridActions)
    ensures
        old(state).pending_sql@.len() > 0 ==> {
            &&& final(state)@ == (GridView {
                pending_sql: seq![],
                show_save_confirm: false,
                ..edits_cleared(old(state)@)
            })
            &&& final(actions)@ == (ActionsView {
                sql_to_execute: old(state)@.pending_sql,
                ..with_message(
                    old(actions)@,
                    "执行 "@ + decimal(old(state).pending_sql@.len()) + " 条 SQL 语句"@,
                )
            })
        },
        old(state).pending_sql@.len() == 0 ==> {
            &&& final(state)@ == (GridView { show_save_confirm: false, ..old(state)@ })
            &&& final(actions)@ == old(actions)@
        },
{
    if state.pending_sql.len() > 0 {
        let mut pending: Vec<String> = Vec::new();
        std::mem::swap(&mut pending, &mut state.pending_sql);
        let mut m = String::from_str("执行 ");
        push_decimal(&mut m, pending.len() as u64);
        m.append(" 条 SQL 语句");
        actions.sql_to_execute = pending;
        actions.message = Some(m);
        state.clear_edits();
        assert(state@.pending_sql =~= seq![]);
    }
    state.show_save_confirm = false;
}

/// Drops the statements that waited for confirmation and closes the prompt.
pub fn cancel_pending_sql(state: &mut DataGridState)
    ensures
        final(state)@ == (GridView { pending_sql: seq![], show_save_confirm: false, ..old(state)@ }),
{
    state.pending_sql = Vec::new();
    state.show_save_confirm = false;
    assert(state@.pending_sql =~= seq![]);
}

/// The save request of a frame (Ctrl+S): with edits and a table, the edits
/// are saved (see `saved`); the request is dropped either way.
pub fn handle_save_request(
    result: &QueryResult,
    state: &mut DataGridState,
    table_name: Option<&str>,
    actions: &mut DataGridActions,
)
    ensures
        old(state).pending_save && has_edits(old(state)@) && table_name is Some ==> {
            let (g, a) = saved(*result, *old(state), table_name->0@, old(actions)@);
            &&& final(state)@ == (GridView { pending_save: false, ..g })
            &&& final(actions)@ == a
        },
        !(old(state).pending_save && has_edits(old(state)@) && table_name is Some) ==> {
            &&& final(state)@ == (GridView { pending_save: false, ..old(state)@ })
            &&& final(actions)@ == old(actions)@
        },
{
    if state.pending_save && state.has_changes() {
        if let Some(table) = table_name {
            generate_save_sql(result, state, table, actions);
        }
    }
    state.pending_save = false;
}

} // verus!
