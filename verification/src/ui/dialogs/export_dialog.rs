//! The export dialog's settings: format, columns, row range and per-format
//! options.
use vstd::prelude::*;
use crate::core_types::ExportFormat;
use crate::database::QueryResult;
use crate::text::{
    bytes_prefix, chars_of, cut_with, decimal, is_char_boundary, join, join_strings, parse_usize, parsed_usize,
    push_char, push_decimal, str_eq, utf8_len, utf8_len_exceeds, views,
};
use crate::ui::dialogs::keyboard::{closes, dialog_action, handle_close_keys, handle_dialog_keys, DialogAction};
use crate::ui::input::{Key, KeyInput};

verus! {

/// The export dialog widget.
pub struct ExportDialog;

/// What to export and how.
#[derive(Clone)]
pub struct ExportConfig {
    pub format: ExportFormat,
    /// Whether each column is exported.
    pub selected_columns: Vec<bool>,
    /// The number of rows to export (0: all).
    pub row_limit: usize,
    /// The first row to export (0-based).
    pub start_row: usize,
    pub csv_delimiter: char,
    pub csv_include_header: bool,
    pub csv_quote_char: char,
    pub sql_use_transaction: bool,
    /// Rows per `INSERT` (0: one row per statement).
    pub sql_batch_size: usize,
    pub json_pretty: bool,
    /// The column the keyboard cursor is on.
    pub nav_column_index: usize,
}

/// The indices of the ticked columns, in increasing order.
pub open spec fn selected_indices(s: Seq<bool>) -> Seq<usize>
    decreases s.len(),
{
    if s.len() == 0 {
        seq![]
    } else if s.last() {
        selected_indices(s.drop_last()).push((s.len() - 1) as usize)
    } else {
        selected_indices(s.drop_last())
    }
}

impl Default for ExportConfig {
    fn default() -> (r: Self)
        ensures
            r.format == ExportFormat::Csv,
            r.selected_columns@.len() == 0,
            r.row_limit == 0,
            r.start_row == 0,
            r.csv_delimiter == ',',
            r.csv_include_header,
            r.csv_quote_char == '"',
            r.sql_use_transaction,
            r.sql_batch_size == 100,
            r.json_pretty,
            r.nav_column_index == 0,
    {
        ExportConfig {
            format: ExportFormat::Csv,
            selected_columns: Vec::new(),
            row_limit: 0,
            start_row: 0,
            csv_delimiter: ',',
            csv_include_header: true,
            csv_quote_char: '"',
            sql_use_transaction: true,
            sql_batch_size: 100,
            json_pretty: true,
            nav_column_index: 0,
        }
    }
}

impl ExportConfig {
    /// Ticks every column when the column count changed; a selection for the
    /// same count is kept.
    pub fn init_columns(&mut self, column_count: usize)
        ensures
            old(self).selected_columns@.len() != column_count ==> final(self).selected_columns@
                == Seq::new(column_count as nat, |i: int| true),
            old(self).selected_columns@.len() == column_count ==> final(self).selected_columns
                == old(self).selected_columns,
            final(self).format == old(self).format,
            final(self).row_limit == old(self).row_limit,
            final(self).start_row == old(self).start_row,
            final(self).nav_column_index == old(self).nav_column_index,
    {
        if self.selected_columns.len() != column_count {
            self.selected_columns = vec![true; column_count];
            assert(self.selected_columns@ =~= Seq::new(column_count as nat, |i: int| true));
        }
    }

    /// The indices of the ticked columns, in increasing order.
    pub fn get_selected_column_indices(&self) -> (r: Vec<usize>)
        ensures
            r@ == selected_indices(self.selected_columns@),
    {
        let mut r: Vec<usize> = Vec::new();
        let mut i: usize = 0;
        while i < self.selected_columns.len()
            invariant
                i <= self.selected_columns@.len(),
                r@ == selected_indices(self.selected_columns@.take(i as int)),
            decreases self.selected_columns@.len() - i,
        {
            assert(self.selected_columns@.take(i + 1).drop_last() == self.selected_columns@.take(
                i as int,
            ));
            if self.selected_columns[i] {
                r.push(i);
            }
            i = i + 1;
        }
        assert(self.selected_columns@.take(self.selected_columns@.len() as int)
            == self.selected_columns@);
        r
    }

    /// Whether every column is ticked.
    pub fn all_columns_selected(&self) -> (r: bool)
        ensures
            r == forall|i: int|
                0 <= i < self.selected_columns@.len() ==> #[trigger] self.selected_columns@[i],
    {
        let mut i: usize = 0;
        while i < self.selected_columns.len()
            invariant
                i <= self.selected_columns@.len(),
                forall|j: int| 0 <= j < i ==> #[trigger] self.selected_columns@[j],
            decreases self.selected_columns@.len() - i,
        {
            if !self.selected_columns[i] {
                return false;
            }
            i = i + 1;
        }
        true
    }

    /// The number of ticked columns.
    pub fn selected_column_count(&self) -> (r: usize)
        ensures
            r == selected_indices(self.selected_columns@).len(),
    {
        let mut n: usize = 0;
        let mut i: usize = 0;
        while i < self.selected_columns.len()
            invariant
                i <= self.selected_columns@.len(),
                n == selected_indices(self.selected_columns@.take(i as int)).len(),
                n <= i,
            decreases self.selected_columns@.len() - i,
        {
            assert(self.selected_columns@.take(i + 1).drop_last() == self.selected_columns@.take(
                i as int,
            ));
            if self.selected_columns[i] {
                n = n + 1;
            }
            i = i + 1;
        }
        assert(self.selected_columns@.take(self.selected_columns@.len() as int)
            == self.selected_columns@);
        n
    }
}

// ---------------------------------------------------------------------------
// The preview
// ---------------------------------------------------------------------------

/// The cells of `row` at the selected indices that exist, in order.
pub open spec fn pick(sel: Seq<usize>, row: Seq<Seq<char>>) -> Seq<Seq<char>>
    decreases sel.len(),
{
    if sel.len() == 0 {
        seq![]
    } else {
        let p = pick(sel.drop_last(), row);
        let i = sel.last();
        if i < row.len() {
            p.push(row[i as int])
        } else {
            p
        }
    }
}

/// The rows that `skip(start).take(k)` yields.
pub open spec fn window<T>(rows: Seq<T>, start: nat, k: nat) -> Seq<T> {
    let a = if start <= rows.len() {
        start
    } else {
        rows.len()
    };
    let b = if a + k <= rows.len() {
        a + k
    } else {
        rows.len()
    };
    rows.subrange(a as int, b as int)
}

/// The selected indices are exactly the ticked columns, each once, in
/// increasing order.
pub proof fn lemma_selected_indices_exact(s: Seq<bool>)
    requires
        s.len() <= usize::MAX + 1,
    ensures
        forall|i: int| 0 <= i < s.len() ==> (selected_indices(s).contains(i as usize) <==> s[i]),
        forall|k: int| 0 <= k < selected_indices(s).len() ==> (#[trigger] selected_indices(s)[k] as int) < s.len(),
        forall|a: int, b: int|
            0 <= a < b < selected_indices(s).len() ==> (#[trigger] selected_indices(s)[a]) < (#[trigger] selected_indices(s)[b]),
    decreases s.len(),
{
    if s.len() > 0 {
        let d = s.drop_last();
        lemma_selected_indices_exact(d);
        let rest = selected_indices(d);
        let all = selected_indices(s);
        assert forall|i: int| 0 <= i < s.len() implies (all.contains(i as usize) <==> s[i]) by {
            if i < s.len() - 1 {
                assert(d[i] == s[i]);
            }
            if all.contains(i as usize) {
                let k = choose|k: int| 0 <= k < all.len() && all[k] == i as usize;
                if k < rest.len() {
                    assert(all[k] == rest[k]);
                    assert(rest.contains(i as usize));
                }
            }
            if s[i] {
                if i < s.len() - 1 {
                    assert(rest.contains(i as usize));
                    let k = choose|k: int| 0 <= k < rest.len() && rest[k] == i as usize;
                    assert(all[k] == rest[k]);
                } else {
                    assert(all[all.len() - 1] == i as usize);
                }
            }
        }
    }
}

/// Picking the cells of a row at indices that all exist gives one cell per
/// index, in the order of the indices.
pub proof fn lemma_pick_in_range(sel: Seq<usize>, row: Seq<Seq<char>>)
    requires
        forall|k: int| 0 <= k < sel.len() ==> (#[trigger] sel[k] as int) < row.len(),
    ensures
        pick(sel, row).len() == sel.len(),
        forall|k: int| 0 <= k < sel.len() ==> #[trigger] pick(sel, row)[k] == row[sel[k] as int],
    decreases sel.len(),
{
    if sel.len() > 0 {
        let d = sel.drop_last();
        assert forall|k: int| 0 <= k < d.len() implies (#[trigger] d[k] as int) < row.len() by {
            assert(d[k] == sel[k]);
        }
        lemma_pick_in_range(d, row);
        assert(sel.last() == sel[sel.len() - 1]);
        assert forall|k: int| 0 <= k < sel.len() implies #[trigger] pick(sel, row)[k] == row[sel[k] as int] by {
            if k < sel.len() - 1 {
                assert(d[k] == sel[k]);
                assert(pick(sel, row)[k] == pick(d, row)[k]);
            }
        }
    }
}

/// A note that `n` more rows follow, in the given unit.
pub open spec fn more_note(n: nat, unit: Seq<char>) -> Seq<char> {
    "... (+"@ + decimal(n) + unit
}

/// The CSV preview: the header when wanted, the first three rows from the
/// start row, and a note of how many rows the table has beyond three.
pub open spec fn csv_preview(c: ExportConfig, cols: Seq<Seq<char>>, rows: Seq<Seq<Seq<char>>>) -> Seq<char> {
    let sel = selected_indices(c.selected_columns@);
    let d = seq![c.csv_delimiter];
    let shown: nat = if rows.len() < 3 { rows.len() } else { 3 };
    let header = if c.csv_include_header { seq![join(pick(sel, cols), d)] } else { seq![] };
    let body = window(rows, c.start_row as nat, shown).map_values(|r: Seq<Seq<char>>| join(pick(sel, r), d));
    let more = if rows.len() > shown { seq![more_note((rows.len() - shown) as nat, " 行)"@)] } else { seq![] };
    join(header + body + more, "\n"@)
}

/// A value as the SQL preview writes it.
pub open spec fn preview_value(v: Seq<char>) -> Seq<char> {
    if v == "NULL"@ {
        "NULL"@
    } else {
        "'"@ + v + "'"@
    }
}

/// One `INSERT` of the SQL preview.
pub open spec fn insert_line(cols_str: Seq<char>, sel: Seq<usize>, row: Seq<Seq<char>>) -> Seq<char> {
    "INSERT INTO `t` ("@ + cols_str + ") VALUES ("@ + join(
        pick(sel, row).map_values(|v: Seq<char>| preview_value(v)),
        ", "@,
    ) + ");"@
}

/// The SQL preview: up to two `INSERT` statements from the start row, and a
/// note of how many rows the table has beyond two.
pub open spec fn sql_preview(c: ExportConfig, cols: Seq<Seq<char>>, rows: Seq<Seq<Seq<char>>>) -> Seq<char> {
    let sel = selected_indices(c.selected_columns@);
    let shown: nat = if rows.len() < 2 { rows.len() } else { 2 };
    let cols_str = join(pick(sel, cols).map_values(|n: Seq<char>| "`"@ + n + "`"@), ", "@);
    let body = window(rows, c.start_row as nat, shown).map_values(
        |r: Seq<Seq<char>>| insert_line(cols_str, sel, r),
    );
    let more = if rows.len() > 2 { seq![more_note((rows.len() - 2) as nat, " 条)"@)] } else { seq![] };
    join(body + more, "\n"@)
}

/// The selected indices paired with the names picked for them, as far as
/// both lists go.
pub open spec fn name_pairs(sel: Seq<usize>, names: Seq<Seq<char>>) -> Seq<(usize, Seq<char>)> {
    Seq::new(
        (if sel.len() <= names.len() { sel.len() } else { names.len() }) as nat,
        |k: int| (sel[k], names[k]),
    )
}

/// The `"name": value` fields of a row for the pairs whose cell exists.
pub open spec fn json_fields(pairs: Seq<(usize, Seq<char>)>, row: Seq<Seq<char>>) -> Seq<Seq<char>>
    decreases pairs.len(),
{
    if pairs.len() == 0 {
        seq![]
    } else {
        let f = json_fields(pairs.drop_last(), row);
        let (i, name) = pairs.last();
        if i < row.len() {
            let v = row[i as int];
            f.push(
                if v == "NULL"@ {
                    "\""@ + name + "\": null"@
                } else {
                    "\""@ + name + "\": \""@ + v + "\""@
                },
            )
        } else {
            f
        }
    }
}

/// One object of the JSON preview.
pub open spec fn json_item(pairs: Seq<(usize, Seq<char>)>, row: Seq<Seq<char>>) -> Seq<char> {
    "{ "@ + join(json_fields(pairs, row), ", "@) + " }"@
}

/// The JSON preview: up to two objects from the start row, and a note of
/// how many rows the table has beyond two.
pub open spec fn json_preview(c: ExportConfig, cols: Seq<Seq<char>>, rows: Seq<Seq<Seq<char>>>) -> Seq<char> {
    let sel = selected_indices(c.selected_columns@);
    let pairs = name_pairs(sel, pick(sel, cols));
    let items = window(rows, c.start_row as nat, 2).map_values(
        |r: Seq<Seq<char>>| json_item(pairs, r),
    );
    let more = if rows.len() > 2 { seq![more_note((rows.len() - 2) as nat, " 条)"@)] } else { seq![] };
    "["@ + join(items + more, ", "@) + "]"@
}

/// The preview of an export.
pub open spec fn export_preview(c: ExportConfig, cols: Seq<Seq<char>>, rows: Seq<Seq<Seq<char>>>) -> Seq<char> {
    if selected_indices(c.selected_columns@).len() == 0 {
        "（未选择任何列）"@
    } else {
        match c.format {
            ExportFormat::Csv => csv_preview(c, cols, rows),
            ExportFormat::Sql => sql_preview(c, cols, rows),
            ExportFormat::Json => json_preview(c, cols, rows),
        }
    }
}

/// The cells of `row` at the selected indices that exist.
fn pick_exec(sel: &Vec<usize>, row: &Vec<String>) -> (r: Vec<String>)
    ensures
        views(r@) == pick(sel@, views(row@)),
{
    let mut r: Vec<String> = Vec::new();
    let mut k: usize = 0;
    while k < sel.len()
        invariant
            k <= sel@.len(),
            views(r@) == pick(sel@.take(k as int), views(row@)),
        decreases sel@.len() - k,
    {
        assert(sel@.take(k + 1).drop_last() =~= sel@.take(k as int));
        let i = sel[k];
        if i < row.len() {
            let ghost before = r@;
            r.push(row[i].clone());
            assert(views(r@) =~= views(before).push(row@[i as int]@));
        }
        k = k + 1;
    }
    assert(sel@.take(sel@.len() as int) =~= sel@);
    r
}

/// The bounds of `skip(start).take(k)` over `len` rows.
fn window_bounds(len: usize, start: usize, k: usize) -> (r: (usize, usize))
    ensures
        r.0 == (if start <= len { start } else { len }),
        r.1 == (if r.0 + k <= len { r.0 + k } else { len as int }),
        r.0 <= r.1 <= len,
{
    let a = if start <= len { start } else { len };
    let b = if k <= len - a { a + k } else { len };
    (a, b)
}

/// A note that `n` more rows follow.
fn more_note_exec(n: usize, unit: &str) -> (r: String)
    ensures
        r@ == more_note(n as nat, unit@),
{
    let mut m = String::from_str("... (+");
    push_decimal(&mut m, n as u64);
    m.append(unit);
    m
}

fn csv_preview_exec(config: &ExportConfig, data: &QueryResult, sel: &Vec<usize>) -> (r: String)
    requires
        sel@ == selected_indices(config.selected_columns@),
    ensures
        r@ == csv_preview(*config, data.column_views(), data.row_views()),
{
    let ghost cols = data.column_views();
    let ghost rows = data.row_views();
    let mut d = String::new();
    push_char(&mut d, config.csv_delimiter);
    assert(d@ =~= seq![config.csv_delimiter]);
    let mut lines: Vec<String> = Vec::new();
    if config.csv_include_header {
        let names = pick_exec(sel, &data.columns);
        lines.push(join_strings(&names, d.as_str()));
    }
    let ghost header = views(lines@);
    let shown: usize = if data.rows.len() < 3 { data.rows.len() } else { 3 };
    let (a, b) = window_bounds(data.rows.len(), config.start_row, shown);
    let mut r = a;
    while r < b
        invariant
            a <= r <= b <= data.rows@.len(),
            rows == data.row_views(),
            views(lines@) == header + rows.subrange(a as int, r as int).map_values(
                |x: Seq<Seq<char>>| join(pick(sel@, x), d@),
            ),
        decreases b - r,
    {
        let cells = pick_exec(sel, &data.rows[r]);
        let line = join_strings(&cells, d.as_str());
        let ghost before = lines@;
        lines.push(line);
        assert(views(lines@) =~= views(before).push(line@));
        assert(rows.subrange(a as int, r + 1) =~= rows.subrange(a as int, r as int).push(rows[r as int]));
        r = r + 1;
    }
    if data.rows.len() > shown {
        let ghost before = lines@;
        let note = more_note_exec(data.rows.len() - shown, " 行)");
        lines.push(note);
        assert(views(lines@) =~= views(before).push(note@));
    }
    assert(views(lines@) =~= (if config.csv_include_header {
        seq![join(pick(sel@, cols), d@)]
    } else {
        seq![]
    }) + window(rows, config.start_row as nat, shown as nat).map_values(
        |x: Seq<Seq<char>>| join(pick(sel@, x), d@),
    ) + (if rows.len() > shown {
        seq![more_note((rows.len() - shown) as nat, " 行)"@)]
    } else {
        seq![]
    }));
    join_strings(&lines, "\n")
}

fn preview_value_exec(v: &str) -> (r: String)
    ensures
        r@ == preview_value(v@),
{
    if str_eq(v, "NULL") {
        String::from_str("NULL")
    } else {
        let mut q = String::from_str("'");
        q.append(v);
        q.append("'");
        q
    }
}

/// Applies `f` to each string.
fn quoted_names(names: &Vec<String>) -> (r: Vec<String>)
    ensures
        views(r@) == views(names@).map_values(|n: Seq<char>| "`"@ + n + "`"@),
{
    let mut r: Vec<String> = Vec::new();
    let mut k: usize = 0;
    while k < names.len()
        invariant
            k <= names@.len(),
            views(r@) == views(names@).take(k as int).map_values(|n: Seq<char>| "`"@ + n + "`"@),
        decreases names@.len() - k,
    {
        let mut q = String::from_str("`");
        q.append(names[k].as_str());
        q.append("`");
        let ghost before = r@;
        r.push(q);
        assert(views(r@) =~= views(before).push(q@));
        assert(views(names@).take(k + 1) =~= views(names@).take(k as int).push(names@[k as int]@));
        k = k + 1;
    }
    assert(views(names@).take(names@.len() as int) =~= views(names@));
    r
}

fn preview_values(cells: &Vec<String>) -> (r: Vec<String>)
    ensures
        views(r@) == views(cells@).map_values(|v: Seq<char>| preview_value(v)),
{
    let mut r: Vec<String> = Vec::new();
    let mut k: usize = 0;
    while k < cells.len()
        invariant
            k <= cells@.len(),
            views(r@) == views(cells@).take(k as int).map_values(|v: Seq<char>| preview_value(v)),
        decreases cells@.len() - k,
    {
        let q = preview_value_exec(cells[k].as_str());
        let ghost before = r@;
        r.push(q);
        assert(views(r@) =~= views(before).push(q@));
        assert(views(cells@).take(k + 1) =~= views(cells@).take(k as int).push(cells@[k as int]@));
        k = k + 1;
    }
    assert(views(cells@).take(cells@.len() as int) =~= views(cells@));
    r
}

fn sql_preview_exec(config: &ExportConfig, data: &QueryResult, sel: &Vec<usize>) -> (r: String)
    requires
        sel@ == selected_indices(config.selected_columns@),
    ensures
        r@ == sql_preview(*config, data.column_views(), data.row_views()),
{
    let ghost cols = data.column_views();
    let ghost rows = data.row_views();
    let names = pick_exec(sel, &data.columns);
    let cols_str = join_strings(&quoted_names(&names), ", ");
    let shown: usize = if data.rows.len() < 2 { data.rows.len() } else { 2 };
    let (a, b) = window_bounds(data.rows.len(), config.start_row, shown);
    let mut lines: Vec<String> = Vec::new();
    let mut r = a;
    while r < b
        invariant
            a <= r <= b <= data.rows@.len(),
            rows == data.row_views(),
            views(lines@) == rows.subrange(a as int, r as int).map_values(|x: Seq<Seq<char>>| insert_line(cols_str@, sel@, x)),
        decreases b - r,
    {
        let cells = pick_exec(sel, &data.rows[r]);
        let vals = join_strings(&preview_values(&cells), ", ");
        let mut line = String::from_str("INSERT INTO `t` (");
        line.append(cols_str.as_str());
        line.append(") VALUES (");
        line.append(vals.as_str());
        line.append(");");
        assert(rows[r as int] == views(data.rows@[r as int]@));
        assert(views(cells@) == pick(sel@, rows[r as int]));
        assert(vals@ == join(pick(sel@, rows[r as int]).map_values(|v: Seq<char>| preview_value(v)), ", "@));
        assert(line@ =~= "INSERT INTO `t` ("@ + cols_str@ + ") VALUES ("@ + vals@ + ");"@);
        assert(line@ =~= insert_line(cols_str@, sel@, rows[r as int]));
        let ghost before = lines@;
        lines.push(line);
        assert(views(lines@) =~= views(before).push(line@));
        assert(rows.subrange(a as int, r + 1) =~= rows.subrange(a as int, r as int).push(rows[r as int]));
        r = r + 1;
    }
    if data.rows.len() > 2 {
        let ghost before = lines@;
        let note = more_note_exec(data.rows.len() - 2, " 条)");
        lines.push(note);
        assert(views(lines@) =~= views(before).push(note@));
    }
    assert(views(lines@) =~= window(rows, config.start_row as nat, shown as nat).map_values(|x: Seq<Seq<char>>| insert_line(cols_str@, sel@, x))
        + (if rows.len() > 2 {
        seq![more_note((rows.len() - 2) as nat, " 条)"@)]
    } else {
        seq![]
    }));
    join_strings(&lines, "\n")
}

/// The pairs of selected indices and picked names.
fn name_pairs_exec(sel: &Vec<usize>, names: &Vec<String>) -> (r: Vec<(usize, String)>)
    ensures
        r@.map_values(|p: (usize, String)| (p.0, p.1@)) == name_pairs(sel@, views(names@)),
{
    let n = if sel.len() <= names.len() { sel.len() } else { names.len() };
    let mut r: Vec<(usize, String)> = Vec::new();
    let mut k: usize = 0;
    while k < n
        invariant
            n <= sel@.len(),
            n <= names@.len(),
            k <= n,
            r@.map_values(|p: (usize, String)| (p.0, p.1@)) == name_pairs(sel@, views(names@)).take(
                k as int,
            ),
        decreases n - k,
    {
        let ghost before = r@;
        r.push((sel[k], names[k].clone()));
        assert(r@.map_values(|p: (usize, String)| (p.0, p.1@)) =~= before.map_values(
            |p: (usize, String)| (p.0, p.1@),
        ).push((sel@[k as int], names@[k as int]@)));
        k = k + 1;
        assert(r@.map_values(|p: (usize, String)| (p.0, p.1@)) =~= name_pairs(
            sel@,
            views(names@),
        ).take(k as int));
    }
    assert(name_pairs(sel@, views(names@)).take(n as int) =~= name_pairs(sel@, views(names@)));
    r
}

fn json_fields_exec(pairs: &Vec<(usize, String)>, row: &Vec<String>) -> (r: Vec<String>)
    ensures
        views(r@) == json_fields(pairs@.map_values(|p: (usize, String)| (p.0, p.1@)), views(row@)),
{
    let ghost pv = pairs@.map_values(|p: (usize, String)| (p.0, p.1@));
    let mut r: Vec<String> = Vec::new();
    let mut k: usize = 0;
    while k < pairs.len()
        invariant
            k <= pairs@.len(),
            pv == pairs@.map_values(|p: (usize, String)| (p.0, p.1@)),
            views(r@) == json_fields(pv.take(k as int), views(row@)),
        decreases pairs@.len() - k,
    {
        assert(pv.take(k + 1).drop_last() =~= pv.take(k as int));
        assert(pv.take(k + 1).last() == pv[k as int]);
        let i = pairs[k].0;
        if i < row.len() {
            let name = pairs[k].1.as_str();
            let v = row[i].as_str();
            let mut f = String::from_str("\"");
            f.append(name);
            if str_eq(v, "NULL") {
                f.append("\": null");
            } else {
                f.append("\": \"");
                f.append(v);
                f.append("\"");
            }
            let ghost before = r@;
            r.push(f);
            assert(views(r@) =~= views(before).push(f@));
        }
        k = k + 1;
    }
    assert(pv.take(pairs@.len() as int) =~= pv);
    r
}

fn json_preview_exec(config: &ExportConfig, data: &QueryResult, sel: &Vec<usize>) -> (r: String)
    requires
        sel@ == selected_indices(config.selected_columns@),
    ensures
        r@ == json_preview(*config, data.column_views(), data.row_views()),
{
    let ghost cols = data.column_views();
    let ghost rows = data.row_views();
    let names = pick_exec(sel, &data.columns);
    let pairs = name_pairs_exec(sel, &names);
    let ghost pv = name_pairs(sel@, pick(sel@, cols));
    let (a, b) = window_bounds(data.rows.len(), config.start_row, 2);
    let mut items: Vec<String> = Vec::new();
    let mut r = a;
    while r < b
        invariant
            a <= r <= b <= data.rows@.len(),
            rows == data.row_views(),
            pv == pairs@.map_values(|p: (usize, String)| (p.0, p.1@)),
            views(items@) == rows.subrange(a as int, r as int).map_values(|x: Seq<Seq<char>>| json_item(pv, x)),
        decreases b - r,
    {
        let fields = json_fields_exec(&pairs, &data.rows[r]);
        let body = join_strings(&fields, ", ");
        let mut item = String::from_str("{ ");
        item.append(body.as_str());
        item.append(" }");
        assert(rows[r as int] == views(data.rows@[r as int]@));
        assert(item@ =~= json_item(pv, rows[r as int]));
        let ghost before = items@;
        items.push(item);
        assert(views(items@) =~= views(before).push(item@));
        assert(rows.subrange(a as int, r + 1) =~= rows.subrange(a as int, r as int).push(rows[r as int]));
        r = r + 1;
    }
    if data.rows.len() > 2 {
        let ghost before = items@;
        let note = more_note_exec(data.rows.len() - 2, " 条)");
        items.push(note);
        assert(views(items@) =~= views(before).push(note@));
    }
    assert(views(items@) =~= window(rows, config.start_row as nat, 2).map_values(|x: Seq<Seq<char>>| json_item(pv, x)) + (if rows.len()
        > 2 {
        seq![more_note((rows.len() - 2) as nat, " 条)"@)]
    } else {
        seq![]
    }));
    let mut out = String::from_str("[");
    let joined = join_strings(&items, ", ");
    out.append(joined.as_str());
    out.append("]");
    out
}

impl ExportDialog {
    /// The preview of an export (see `export_preview`).
    pub fn generate_preview(config: &ExportConfig, data: &QueryResult) -> (r: String)
        ensures
            r@ == export_preview(*config, data.column_views(), data.row_views()),
    {
        let sel = config.get_selected_column_indices();
        if sel.len() == 0 {
            return String::from_str("（未选择任何列）");
        }
        match config.format {
            ExportFormat::Csv => csv_preview_exec(config, data, &sel),
            ExportFormat::Sql => sql_preview_exec(config, data, &sel),
            ExportFormat::Json => json_preview_exec(config, data, &sel),
        }
    }
}

// ---------------------------------------------------------------------------
// The dialog's keys
// ---------------------------------------------------------------------------

/// What a frame of keys did to the export dialog.
#[derive(Debug, Clone, Copy, PartialEq, Eq, Structural)]
pub enum ExportKeyOutcome {
    /// The dialog stays open.
    Stay,
    /// Escape or `q`: the dialog closes.
    Close,
    /// Enter or `y`: export with the settings as they are.
    Export,
}

/// The format to the left (`h`): CSV, JSON, SQL, CSV.
pub open spec fn format_before(f: ExportFormat) -> ExportFormat {
    match f {
        ExportFormat::Csv => ExportFormat::Json,
        ExportFormat::Sql => ExportFormat::Csv,
        ExportFormat::Json => ExportFormat::Sql,
    }
}

/// The format to the right (`l`): CSV, SQL, JSON, CSV.
pub open spec fn format_after(f: ExportFormat) -> ExportFormat {
    match f {
        ExportFormat::Csv => ExportFormat::Sql,
        ExportFormat::Sql => ExportFormat::Json,
        ExportFormat::Json => ExportFormat::Csv,
    }
}

/// Stepping the format right and then left (or left and then right)
/// returns to it, and three steps either way come back round.
pub proof fn lemma_format_steps_inverse(f: ExportFormat)
    ensures
        format_before(format_after(f)) == f,
        format_after(format_before(f)) == f,
        format_after(format_after(format_after(f))) == f,
        format_after(f) != f,
{
}

/// The format after the keys: `1`, `2`, `3` pick CSV, SQL, JSON; then `h`/←
/// and `l`/→ step left and right.
pub open spec fn format_after_keys(i: KeyInput, f: ExportFormat) -> ExportFormat {
    let f1 = if i.has(Key::Num1) { ExportFormat::Csv } else { f };
    let f2 = if i.has(Key::Num2) { ExportFormat::Sql } else { f1 };
    let f3 = if i.has(Key::Num3) { ExportFormat::Json } else { f2 };
    let f4 = if i.has(Key::H) || i.has(Key::ArrowLeft) { format_before(f3) } else { f3 };
    if i.has(Key::L) || i.has(Key::ArrowRight) {
        format_after(f4)
    } else {
        f4
    }
}

/// The column cursor after the keys, over `col_count` columns: `j`/↓ down
/// and `k`/↑ up, stopping at the ends, `g` to the first, `G` to the last.
pub open spec fn nav_after_keys(i: KeyInput, nav: usize, col_count: usize) -> usize {
    if col_count == 0 {
        nav
    } else {
        let last = (col_count - 1) as usize;
        let n1 = if i.has(Key::J) || i.has(Key::ArrowDown) {
            if nav + 1 <= last { (nav + 1) as usize } else { last }
        } else {
            nav
        };
        let n2 = if i.has(Key::K) || i.has(Key::ArrowUp) {
            if n1 >= 1 { (n1 - 1) as usize } else { 0 }
        } else {
            n1
        };
        let n3 = if i.has(Key::G) && !i.modifiers.shift { 0 } else { n2 };
        if i.has(Key::G) && i.modifiers.shift {
            last
        } else {
            n3
        }
    }
}

/// Every column ticked.
pub open spec fn all_ticked(cols: Seq<bool>) -> bool {
    forall|k: int| 0 <= k < cols.len() ==> #[trigger] cols[k]
}

/// The ticked columns after the keys, with the cursor on `nav`: Space ticks
/// or unticks the column under the cursor; then `a` unticks every column
/// when all are ticked and ticks every one otherwise.
pub open spec fn columns_after_keys(i: KeyInput, cols: Seq<bool>, nav: usize, col_count: usize) -> Seq<bool> {
    if col_count == 0 {
        cols
    } else {
        let c1 = if i.has(Key::Space) && nav < cols.len() {
            cols.update(nav as int, !cols[nav as int])
        } else {
            cols
        };
        if i.has(Key::A) {
            Seq::new(c1.len(), |k: int| !all_ticked(c1))
        } else {
            c1
        }
    }
}

fn format_before_exec(f: ExportFormat) -> (r: ExportFormat)
    ensures
        r == format_before(f),
{
    match f {
        ExportFormat::Csv => ExportFormat::Json,
        ExportFormat::Sql => ExportFormat::Csv,
        ExportFormat::Json => ExportFormat::Sql,
    }
}

fn format_after_exec(f: ExportFormat) -> (r: ExportFormat)
    ensures
        r == format_after(f),
{
    match f {
        ExportFormat::Csv => ExportFormat::Sql,
        ExportFormat::Sql => ExportFormat::Json,
        ExportFormat::Json => ExportFormat::Csv,
    }
}

fn set_all_columns(cols: &mut Vec<bool>, v: bool)
    ensures
        final(cols)@ == Seq::new(old(cols)@.len(), |k: int| v),
{
    let mut k: usize = 0;
    while k < cols.len()
        invariant
            cols@.len() == old(cols)@.len(),
            k <= cols@.len(),
            forall|j: int| 0 <= j < k ==> cols@[j] == v,
        decreases cols@.len() - k,
    {
        cols.set(k, v);
        k = k + 1;
    }
    assert(cols@ =~= Seq::new(old(cols)@.len(), |k: int| v));
}

fn format_keys(input: &KeyInput, f: ExportFormat) -> (r: ExportFormat)
    ensures
        r == format_after_keys(*input, f),
{
    let mut g = f;
    if input.key_pressed(Key::Num1) {
        g = ExportFormat::Csv;
    }
    if input.key_pressed(Key::Num2) {
        g = ExportFormat::Sql;
    }
    if input.key_pressed(Key::Num3) {
        g = ExportFormat::Json;
    }
    if input.key_pressed(Key::H) || input.key_pressed(Key::ArrowLeft) {
        g = format_before_exec(g);
    }
    if input.key_pressed(Key::L) || input.key_pressed(Key::ArrowRight) {
        g = format_after_exec(g);
    }
    g
}

fn nav_keys(input: &KeyInput, nav: usize, col_count: usize) -> (r: usize)
    requires
        nav < usize::MAX,
    ensures
        r == nav_after_keys(*input, nav, col_count),
{
    if col_count == 0 {
        return nav;
    }
    let last = col_count - 1;
    let mut n = nav;
    if input.key_pressed(Key::J) || input.key_pressed(Key::ArrowDown) {
        n = if n + 1 <= last { n + 1 } else { last };
    }
    if input.key_pressed(Key::K) || input.key_pressed(Key::ArrowUp) {
        n = if n >= 1 { n - 1 } else { 0 };
    }
    if input.key_pressed(Key::G) && !input.modifiers.shift {
        n = 0;
    }
    if input.key_pressed(Key::G) && input.modifiers.shift {
        n = last;
    }
    n
}

fn column_keys(input: &KeyInput, cols: &mut Vec<bool>, nav: usize, col_count: usize)
    ensures
        final(cols)@ == columns_after_keys(*input, old(cols)@, nav, col_count),
{
    if col_count > 0 {
        if input.key_pressed(Key::Space) && nav < cols.len() {
            let t = cols[nav];
            cols.set(nav, !t);
        }
        if input.key_pressed(Key::A) {
            let mut all = true;
            let mut k: usize = 0;
            while k < cols.len()
                invariant
                    k <= cols@.len(),
                    all == (forall|j: int| 0 <= j < k ==> #[trigger] cols@[j]),
                decreases cols@.len() - k,
            {
                all = all && cols[k];
                k = k + 1;
            }
            set_all_columns(cols, !all);
        }
    }
}

impl ExportDialog {
    /// One frame of the dialog's keys (call it when no text field has the
    /// keyboard), over a result of `row_count` rows and `col_count` columns:
    /// Escape or `q` closes; Enter or `y` exports when a column is ticked and
    /// there are rows; otherwise the format, column cursor and ticks follow
    /// the keys (see `format_after_keys`, `nav_after_keys`,
    /// `columns_after_keys`).
    pub fn handle_keys(
        input: &KeyInput,
        config: &mut ExportConfig,
        row_count: usize,
        col_count: usize,
    ) -> (r: ExportKeyOutcome)
        requires
            old(config).nav_column_index < usize::MAX,
        ensures
            closes(*input) ==> r == ExportKeyOutcome::Close && *final(config) == *old(config),
            !closes(*input) && selected_indices(old(config).selected_columns@).len() > 0 && row_count
                > 0 && dialog_action(*input) == DialogAction::Confirm ==> r == ExportKeyOutcome::Export
                && *final(config) == *old(config),
            r == ExportKeyOutcome::Stay <==> !closes(*input) && !(selected_indices(
                old(config).selected_columns@,
            ).len() > 0 && row_count > 0 && dialog_action(*input) == DialogAction::Confirm),
            r == ExportKeyOutcome::Stay ==> {
                let nav = nav_after_keys(*input, old(config).nav_column_index, col_count);
                &&& final(config).format == format_after_keys(*input, old(config).format)
                &&& final(config).nav_column_index == nav
                &&& final(config).selected_columns@ == columns_after_keys(
                    *input,
                    old(config).selected_columns@,
                    nav,
                    col_count,
                )
                &&& final(config).row_limit == old(config).row_limit
                &&& final(config).start_row == old(config).start_row
                &&& final(config).csv_delimiter == old(config).csv_delimiter
                &&& final(config).csv_include_header == old(config).csv_include_header
                &&& final(config).csv_quote_char == old(config).csv_quote_char
                &&& final(config).sql_use_transaction == old(config).sql_use_transaction
                &&& final(config).sql_batch_size == old(config).sql_batch_size
                &&& final(config).json_pretty == old(config).json_pretty
            },
    {
        if handle_close_keys(input) {
            return ExportKeyOutcome::Close;
        }
        let can_export = config.selected_column_count() > 0 && row_count > 0;
        if can_export {
            if let DialogAction::Confirm = handle_dialog_keys(input) {
                return ExportKeyOutcome::Export;
            }
        }
        config.format = format_keys(input, config.format);
        let nav = nav_keys(input, config.nav_column_index, col_count);
        config.nav_column_index = nav;
        column_keys(input, &mut config.selected_columns, nav, col_count);
        ExportKeyOutcome::Stay
    }
}

/// A column name in the export column list: over 20 bytes, its first 18
/// bytes and `…`.
pub open spec fn column_label(name: Seq<char>) -> Seq<char> {
    if utf8_len(name) > 20 {
        bytes_prefix(name, 18) + "…"@
    } else {
        name
    }
}

/// The row limit typed in the custom field: the number, or 0 (all rows)
/// when the text is not one.
pub open spec fn typed_row_limit(text: Seq<char>) -> usize {
    match parsed_usize(text) {
        Some(n) => n,
        None => 0,
    }
}

impl ExportDialog {
    /// The label of a column in the column list (see `column_label`); a cut
    /// inside a character is left out by `requires`.
    pub fn column_label(name: &str) -> (r: String)
        requires
            utf8_len(name@) > 20 ==> is_char_boundary(name@, 18),
        ensures
            r@ == column_label(name@),
    {
        let v = chars_of(name);
        if utf8_len_exceeds(&v, 20) {
            cut_with(name, 18, "…")
        } else {
            String::from_str(name)
        }
    }

    /// The row limit of the custom field (see `typed_row_limit`).
    pub fn row_limit_from_text(text: &str) -> (r: usize)
        ensures
            r == typed_row_limit(text@),
    {
        let v = chars_of(text);
        match parse_usize(&v) {
            Some(n) => n,
            None => 0,
        }
    }
}

/// The column cursor never leaves the column list: from a column, the keys
/// always land on a column.
pub proof fn lemma_export_cursor_stays(i: KeyInput, nav: usize, col_count: usize)
    requires
        nav < col_count,
    ensures
        nav_after_keys(i, nav, col_count) < col_count,
{
}

/// `a` twice makes every column's tick the same: all ticked when all were
/// ticked before, all unticked otherwise.
pub proof fn lemma_select_all_twice(i: KeyInput, cols: Seq<bool>, col_count: usize)
    requires
        col_count > 0,
        cols.len() > 0,
        i.has(Key::A),
        !i.has(Key::Space),
    ensures
        columns_after_keys(i, columns_after_keys(i, cols, 0, col_count), 0, col_count) == Seq::new(
            cols.len(),
            |k: int| all_ticked(cols),
        ),
{
    let c1 = columns_after_keys(i, cols, 0, col_count);
    let c2 = columns_after_keys(i, c1, 0, col_count);
    if all_ticked(cols) {
        assert(!c1[0]);
        assert(!all_ticked(c1));
    } else {
        assert(all_ticked(c1));
    }
    assert(c2 =~= Seq::new(cols.len(), |k: int| all_ticked(cols)));
}

} // verus!
